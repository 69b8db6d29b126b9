use clap_to_jack::abi::package_identity;
use clap_to_jack::errors::HostError;
use clap_to_jack::identity::{is_nul_free, HostIdentity};

#[test]
fn valid_identity_is_packaged() {
    let id = HostIdentity::new(
        b"clap_to_jack".to_vec(),
        b"example vendor".to_vec(),
        b"https://example.invalid".to_vec(),
        b"0.1.0".to_vec(),
    )
    .unwrap();
    assert_eq!(id.name, b"clap_to_jack".to_vec());
    assert_eq!(id.version, b"0.1.0".to_vec());
    assert!(package_identity(&id).is_ok());
}

#[test]
fn interior_nul_byte_is_rejected() {
    let r = HostIdentity::new(
        b"clap\0to_jack".to_vec(),
        b"vendor".to_vec(),
        b"url".to_vec(),
        b"1".to_vec(),
    );
    assert_eq!(r, Err(HostError::InvalidIdentity));
}

#[test]
fn nul_byte_in_any_field_is_rejected() {
    for field in 0..4 {
        let mut fields = vec![
            b"name".to_vec(),
            b"vendor".to_vec(),
            b"url".to_vec(),
            b"version".to_vec(),
        ];
        fields[field].push(0);
        let r = HostIdentity::new(
            fields[0].clone(),
            fields[1].clone(),
            fields[2].clone(),
            fields[3].clone(),
        );
        assert_eq!(r, Err(HostError::InvalidIdentity));
    }
}

#[test]
fn non_utf8_identity_fails_to_package() {
    let id = HostIdentity::new(
        vec![0xff, 0xfe],
        b"vendor".to_vec(),
        b"url".to_vec(),
        b"1".to_vec(),
    )
    .unwrap();
    assert!(matches!(
        package_identity(&id),
        Err(HostError::InvalidIdentity)
    ));
}

#[test]
fn nul_detection_is_exact() {
    assert!(is_nul_free(&b"hello".to_vec()));
    assert!(is_nul_free(&Vec::new()));
    assert!(!is_nul_free(&vec![104, 0, 105]));
    assert!(!is_nul_free(&vec![0]));
}
