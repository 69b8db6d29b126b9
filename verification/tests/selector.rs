use clap_to_jack::descriptor::{BundleCatalog, Descriptor};
use clap_to_jack::errors::HostError;

fn desc(id: &[u8], name: &[u8]) -> Descriptor {
    Descriptor {
        id: id.to_vec(),
        name: name.to_vec(),
        vendor: b"vendor".to_vec(),
        version: b"1.0".to_vec(),
    }
}

#[test]
fn selects_requested_descriptor_never_the_other() {
    let catalog = BundleCatalog {
        descs: vec![desc(b"a", b"Plugin A"), desc(b"b", b"Plugin B")],
    };
    let found = catalog.select(&b"b".to_vec()).unwrap();
    assert_eq!(found, 1);
    assert_eq!(catalog.descriptors()[found].id, b"b".to_vec());
    assert_ne!(catalog.descriptors()[found].id, b"a".to_vec());
}

#[test]
fn absent_identifier_is_not_found() {
    let catalog = BundleCatalog {
        descs: vec![desc(b"a", b"Plugin A"), desc(b"b", b"Plugin B")],
    };
    assert_eq!(
        catalog.select(&b"missing".to_vec()),
        Err(HostError::NotFound)
    );
}

#[test]
fn empty_catalog_is_not_found() {
    let catalog = BundleCatalog { descs: Vec::new() };
    assert_eq!(catalog.select(&b"a".to_vec()), Err(HostError::NotFound));
}

#[test]
fn first_match_wins_over_later_duplicate() {
    let catalog = BundleCatalog {
        descs: vec![
            desc(b"dup", b"First"),
            desc(b"other", b"Other"),
            desc(b"dup", b"Second"),
        ],
    };
    let found = catalog.select(&b"dup".to_vec()).unwrap();
    assert_eq!(found, 0);
    assert_eq!(catalog.descriptors()[found].name, b"First".to_vec());
}

#[test]
fn selection_is_case_sensitive() {
    let catalog = BundleCatalog {
        descs: vec![desc(b"Osc", b"Oscillator")],
    };
    assert_eq!(catalog.select(&b"osc".to_vec()), Err(HostError::NotFound));
    assert_eq!(catalog.select(&b"Osc".to_vec()), Ok(0));
}

#[test]
fn enumeration_is_idempotent() {
    let catalog = BundleCatalog {
        descs: vec![desc(b"a", b"Plugin A"), desc(b"b", b"Plugin B")],
    };
    let first: Vec<Descriptor> = catalog.descriptors().clone();
    let second: Vec<Descriptor> = catalog.descriptors().clone();
    assert_eq!(first, second);
}
