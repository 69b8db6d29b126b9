use vstd::prelude::*;

use crate::errors::HostError;

verus! {

/// Immutable metadata describing one plugin implementation inside a bundle.
/// Each field holds the raw bytes of the corresponding interface string; a
/// field the bundle does not provide is left empty.
#[derive(Clone, Debug, PartialEq, Eq)]
pub struct Descriptor {
    pub id: Vec<u8>,
    pub name: Vec<u8>,
    pub vendor: Vec<u8>,
    pub version: Vec<u8>,
}

/// True when some descriptor in `descs` carries exactly the identifier
/// `target`.
pub open spec fn has_descriptor(descs: Seq<Descriptor>, target: Seq<u8>) -> bool {
    exists|i: int| 0 <= i < descs.len() && descs[i].id@ == target
}

/// Compares two byte strings for exact, case-sensitive equality.
pub fn bytes_eq(a: &Vec<u8>, b: &Vec<u8>) -> (r: bool)
    ensures
        r <==> a@ == b@,
{
    if a.len() != b.len() {
        return false;
    }
    for i in 0..a.len()
        invariant
            a@.len() == b@.len(),
            forall|j: int| 0 <= j < i ==> a@[j] == b@[j],
    {
        if a[i] != b[i] {
            return false;
        }
    }
    proof {
        assert(a@ =~= b@);
    }
    true
}

/// The ordered list of descriptors a loaded bundle's factory exposes,
/// captured once when the bundle is opened. Enumeration reads this snapshot,
/// so it has no side effects and may be repeated freely.
#[derive(Clone, Debug, PartialEq, Eq)]
pub struct BundleCatalog {
    pub descs: Vec<Descriptor>,
}

impl BundleCatalog {
    /// Enumerates the bundle's descriptors, in factory order.
    pub fn descriptors(&self) -> (r: &Vec<Descriptor>)
        ensures
            r@ == self.descs@,
    {
        &self.descs
    }

    /// Returns the position of the first descriptor whose identifier equals
    /// `target` exactly, or `NotFound` when no descriptor matches.
    pub fn select(&self, target: &Vec<u8>) -> (r: Result<usize, HostError>)
        ensures
            match r {
                Ok(i) => 0 <= i < self.descs@.len() && self.descs@[i as int].id@ == target@
                    && (forall|j: int| 0 <= j < i ==> self.descs@[j].id@ != target@),
                Err(e) => e == HostError::NotFound && !has_descriptor(self.descs@, target@),
            },
    {
        for i in 0..self.descs.len()
            invariant
                forall|j: int| 0 <= j < i ==> self.descs@[j].id@ != target@,
        {
            if bytes_eq(&self.descs[i].id, target) {
                return Ok(i);
            }
        }
        Err(HostError::NotFound)
    }
}

/// Descriptor enumeration is idempotent: two enumerations of the same
/// catalog yield the same ordered sequence of descriptors. This holds
/// because `descriptors` pins its result to the catalog's snapshot, which
/// enumeration never mutates.
pub proof fn lemma_enumeration_idempotent(
    c: &BundleCatalog,
    first: Seq<Descriptor>,
    second: Seq<Descriptor>,
)
    requires
        first == c.descs@,
        second == c.descs@,
    ensures
        first == second,
{
}

} // verus!
