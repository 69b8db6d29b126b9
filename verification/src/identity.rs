use vstd::prelude::*;

use crate::errors::HostError;

verus! {

/// True when `s` holds no interior nul byte — the encoding constraint the
/// plugin interface places on every host identity string.
pub open spec fn nul_free(s: Seq<u8>) -> bool {
    forall|i: int| 0 <= i < s.len() ==> s[i] != 0
}

/// Checks a byte string for interior nul bytes.
pub fn is_nul_free(b: &Vec<u8>) -> (r: bool)
    ensures
        r == nul_free(b@),
{
    for i in 0..b.len()
        invariant
            forall|j: int| 0 <= j < i ==> b@[j] != 0,
    {
        if b[i] == 0 {
            return false;
        }
    }
    true
}

/// The host's self-description handed to a plugin at construction time:
/// name, vendor, url and version, each a byte string free of interior nul
/// bytes. The constructor establishes that constraint once; the fields are
/// constant for the life of the process.
#[derive(Clone, Debug, PartialEq, Eq)]
pub struct HostIdentity {
    pub name: Vec<u8>,
    pub vendor: Vec<u8>,
    pub url: Vec<u8>,
    pub version: Vec<u8>,
}

impl HostIdentity {
    /// Every field satisfies the interface's encoding constraint.
    pub open spec fn wf(&self) -> bool {
        nul_free(self.name@) && nul_free(self.vendor@) && nul_free(self.url@)
            && nul_free(self.version@)
    }

    /// Validates and packages the four identity strings. Fails with
    /// `InvalidIdentity` exactly when one of them holds an interior nul
    /// byte; on success the fields are kept unchanged.
    pub fn new(name: Vec<u8>, vendor: Vec<u8>, url: Vec<u8>, version: Vec<u8>) -> (r: Result<
        HostIdentity,
        HostError,
    >)
        ensures
            match r {
                Ok(h) => h.wf() && h.name@ == name@ && h.vendor@ == vendor@ && h.url@ == url@
                    && h.version@ == version@,
                Err(e) => e == HostError::InvalidIdentity && !(nul_free(name@) && nul_free(vendor@)
                    && nul_free(url@) && nul_free(version@)),
            },
    {
        if !is_nul_free(&name) || !is_nul_free(&vendor) || !is_nul_free(&url) || !is_nul_free(
            &version,
        ) {
            return Err(HostError::InvalidIdentity);
        }
        Ok(HostIdentity { name, vendor, url, version })
    }
}

} // verus!
