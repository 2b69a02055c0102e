use sbom_licenses::id::{hyphenated, Id, IdError};
use uuid::Uuid;

fn uuid_of(id: Result<Id, IdError>) -> u128 {
    match id {
        Ok(Id::Uuid(uuid)) => uuid,
        other => panic!("no uuid: {:?}", other),
    }
}

#[test]
fn hyphenated_form_has_five_groups() {
    assert_eq!(
        hyphenated(0x67e55044_10b1_426f_9247_bb680e5fe0c8),
        "67e55044-10b1-426f-9247-bb680e5fe0c8"
    );
    assert_eq!(hyphenated(0), "00000000-0000-0000-0000-000000000000");
    assert_eq!(hyphenated(u128::MAX), "ffffffff-ffff-ffff-ffff-ffffffffffff");
    assert_eq!(
        hyphenated(0x0123456789abcdef_fedcba9876543210),
        "01234567-89ab-cdef-fedc-ba9876543210"
    );
}

#[test]
fn hyphenated_form_is_that_of_the_uuid_crate() {
    for id in [1u128, 0xdeadbeef_cafe_4118_a138_b89f1935e0a7, 0x8000_0000_0000_0000_0000_0000_0000_0001, 0xa1a2a3a4_b1b2_c1c2_d1d2_d3d4d5d6d7d8] {
        assert_eq!(hyphenated(id), Uuid::from_u128(id).hyphenated().to_string());
        assert_eq!(hyphenated(id), format!("{:?}", Uuid::from_u128(id)));
    }
}

#[test]
fn parse_reads_a_uuid() {
    let id = Id::parse("urn:uuid:67e55044-10b1-426f-9247-bb680e5fe0c8");
    assert_eq!(uuid_of(id), 0x67e55044_10b1_426f_9247_bb680e5fe0c8);
    let simple = Id::parse("urn:uuid:67e5504410b1426f9247bb680e5fe0c8");
    assert_eq!(uuid_of(simple), 0x67e55044_10b1_426f_9247_bb680e5fe0c8);
}

#[test]
fn parse_reads_digests() {
    match Id::parse("sha256:dc60aeb735c16a71b6fc56e84ddb8193e3a6d1ef0b7e958d77e78fc039a5d04e") {
        Ok(Id::Sha256(digest)) => assert_eq!(digest, "dc60aeb735c16a71b6fc56e84ddb8193e3a6d1ef0b7e958d77e78fc039a5d04e"),
        other => panic!("{:?}", other),
    }
    match Id::parse("sha384:abc") {
        Ok(Id::Sha384(digest)) => assert_eq!(digest, "abc"),
        other => panic!("{:?}", other),
    }
    match Id::parse("sha512:a:b") {
        Ok(Id::Sha512(digest)) => assert_eq!(digest, "a:b"),
        other => panic!("{:?}", other),
    }
    match Id::parse("sha256:") {
        Ok(Id::Sha256(digest)) => assert_eq!(digest, ""),
        other => panic!("{:?}", other),
    }
}

#[test]
fn parse_refuses_what_is_no_identifier() {
    assert_eq!(Id::parse("").err(), Some(IdError::MissingPrefix));
    assert_eq!(Id::parse("67e55044-10b1-426f-9247-bb680e5fe0c8").err(), Some(IdError::MissingPrefix));
    assert_eq!(Id::parse("md4:abc").err(), Some(IdError::UnsupportedAlgorithm));
    assert_eq!(Id::parse("SHA256:abc").err(), Some(IdError::UnsupportedAlgorithm));
    assert_eq!(Id::parse(":abc").err(), Some(IdError::UnsupportedAlgorithm));
    assert_eq!(Id::parse("urn:isbn:123").err(), Some(IdError::UnsupportedAlgorithm));
    assert_eq!(Id::parse("urn:uui").err(), Some(IdError::UnsupportedAlgorithm));
    assert_eq!(Id::parse("urn:uuid:").err(), Some(IdError::InvalidUuid));
    assert_eq!(Id::parse("urn:uuid:not-a-uuid").err(), Some(IdError::InvalidUuid));
    assert_eq!(Id::parse("urn:uuid:67e55044-10b1-426f-9247-bb680e5fe0c").err(), Some(IdError::InvalidUuid));
}

#[test]
fn of_kind_decides_by_kind_and_value() {
    assert_eq!(uuid_of(Id::of_kind("urn", "uuid:x".to_string(), Some(7))), 7);
    assert_eq!(Id::of_kind("urn", "uuid:x".to_string(), None).err(), Some(IdError::InvalidUuid));
    assert_eq!(Id::of_kind("urn", "uid:x".to_string(), Some(7)).err(), Some(IdError::UnsupportedAlgorithm));
    assert_eq!(Id::of_kind("sha1", "x".to_string(), Some(7)).err(), Some(IdError::UnsupportedAlgorithm));
    match Id::of_kind("sha256", "uuid:x".to_string(), Some(7)) {
        Ok(Id::Sha256(digest)) => assert_eq!(digest, "uuid:x"),
        other => panic!("{:?}", other),
    }
}

#[test]
fn try_as_uid_gives_the_identity_only() {
    assert_eq!(Id::Uuid(5).try_as_uid(), Some(5));
    assert_eq!(Id::Sha256("aa".to_string()).try_as_uid(), None);
    assert_eq!(Id::Sha384("aa".to_string()).try_as_uid(), None);
    assert_eq!(Id::Sha512("aa".to_string()).try_as_uid(), None);
}

#[test]
fn id_errors_say_what_is_wrong() {
    assert_eq!(IdError::MissingPrefix.message(), "missing prefix");
    assert_eq!(IdError::UnsupportedAlgorithm.message(), "unsupported algorithm");
    assert_eq!(IdError::InvalidUuid.message(), "invalid UUID");
}
