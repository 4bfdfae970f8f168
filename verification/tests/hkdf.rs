use cryptoki_hkdf::hkdf::{
    HkdfError, HkdfParams, HkdfSalt, SALT_TYPE_DATA, SALT_TYPE_KEY, SALT_TYPE_NULL,
};
use cryptoki_hkdf::mechanism::MechanismType;
use cryptoki_hkdf::object::ObjectHandle;

fn sha256() -> MechanismType {
    MechanismType::new(cryptoki_sys::CKM_SHA256)
}

fn sha384() -> MechanismType {
    MechanismType::new(cryptoki_sys::CKM_SHA384)
}

#[test]
fn salt_type_constants_match_token_interface() {
    assert_eq!(SALT_TYPE_NULL, cryptoki_sys::CKF_HKDF_SALT_NULL);
    assert_eq!(SALT_TYPE_DATA, cryptoki_sys::CKF_HKDF_SALT_DATA);
    assert_eq!(SALT_TYPE_KEY, cryptoki_sys::CKF_HKDF_SALT_KEY);
}

#[test]
fn scenario_extract_expand_no_salt() {
    let info = b"context-info";
    let params = HkdfParams::new(true, true, sha256(), HkdfSalt::Null, info).unwrap();
    assert_eq!(params.b_extract, 1);
    assert_eq!(params.b_expand, 1);
    assert_eq!(params.prf_hash_mechanism, cryptoki_sys::CKM_SHA256);
    assert_eq!(params.ul_salt_type, cryptoki_sys::CKF_HKDF_SALT_NULL);
    assert!(params.p_salt.is_none());
    assert_eq!(params.ul_salt_len, 0);
    assert_eq!(params.h_salt_key, 0);
    assert_eq!(params.ul_info_len, 12);
    assert_eq!(params.p_info, &info[..]);
}

#[test]
fn scenario_expand_only_data_salt() {
    let salt = b"abc";
    let params = HkdfParams::new(false, true, sha256(), HkdfSalt::Data(salt), b"").unwrap();
    assert_eq!(params.b_extract, 0);
    assert_eq!(params.b_expand, 1);
    assert_eq!(params.ul_salt_type, cryptoki_sys::CKF_HKDF_SALT_DATA);
    assert_eq!(params.ul_salt_len, 3);
    assert_eq!(params.p_salt, Some(&salt[..]));
    assert_eq!(params.h_salt_key, 0);
    assert_eq!(params.ul_info_len, 0);
    assert_eq!(params.p_info.len(), 0);
}

#[test]
fn scenario_extract_only_key_salt() {
    let params = HkdfParams::new(
        true,
        false,
        sha384(),
        HkdfSalt::Key(ObjectHandle::new(42)),
        b"x",
    )
    .unwrap();
    assert_eq!(params.b_extract, 1);
    assert_eq!(params.b_expand, 0);
    assert_eq!(params.prf_hash_mechanism, cryptoki_sys::CKM_SHA384);
    assert_eq!(params.ul_salt_type, cryptoki_sys::CKF_HKDF_SALT_KEY);
    assert!(params.p_salt.is_none());
    assert_eq!(params.ul_salt_len, 0);
    assert_eq!(params.h_salt_key, 42);
    assert_eq!(params.ul_info_len, 1);
}

#[test]
fn round_trip_null_salt() {
    let info = b"some info bytes";
    let params = HkdfParams::new(true, false, sha256(), HkdfSalt::Null, info).unwrap();
    assert!(params.extract());
    assert!(!params.expand());
    assert!(matches!(params.salt(), Ok(HkdfSalt::Null)));
    assert_eq!(params.info(), &info[..]);
}

#[test]
fn round_trip_data_salt() {
    let salt = b"pepper";
    let info = b"info";
    let params = HkdfParams::new(false, true, sha384(), HkdfSalt::Data(salt), info).unwrap();
    assert!(!params.extract());
    assert!(params.expand());
    match params.salt() {
        Ok(HkdfSalt::Data(read_back)) => assert_eq!(read_back, &salt[..]),
        other => panic!("expected explicit data salt, got {:?}", other),
    }
    assert_eq!(params.info(), &info[..]);
}

#[test]
fn round_trip_key_salt() {
    let params = HkdfParams::new(
        true,
        true,
        sha256(),
        HkdfSalt::Key(ObjectHandle::new(7)),
        b"",
    )
    .unwrap();
    assert!(params.extract());
    assert!(params.expand());
    match params.salt() {
        Ok(HkdfSalt::Key(handle)) => assert_eq!(handle.handle(), 7),
        other => panic!("expected key salt, got {:?}", other),
    }
    assert_eq!(params.info(), &b""[..]);
}

#[test]
fn zero_length_data_salt_distinct_from_null() {
    let with_empty_data =
        HkdfParams::new(true, true, sha256(), HkdfSalt::Data(b""), b"info").unwrap();
    let with_null = HkdfParams::new(true, true, sha256(), HkdfSalt::Null, b"info").unwrap();
    assert_eq!(with_empty_data.ul_salt_type, cryptoki_sys::CKF_HKDF_SALT_DATA);
    assert_eq!(with_empty_data.ul_salt_len, 0);
    assert!(with_empty_data.p_salt.is_some());
    assert_eq!(with_null.ul_salt_type, cryptoki_sys::CKF_HKDF_SALT_NULL);
    assert_ne!(with_empty_data.ul_salt_type, with_null.ul_salt_type);
    match with_empty_data.salt() {
        Ok(HkdfSalt::Data(read_back)) => assert_eq!(read_back.len(), 0),
        other => panic!("expected explicit data salt, got {:?}", other),
    }
}

#[test]
fn invalid_discriminant_rejected() {
    let record = HkdfParams {
        b_extract: 1,
        b_expand: 1,
        prf_hash_mechanism: cryptoki_sys::CKM_SHA256,
        ul_salt_type: 0x40,
        p_salt: None,
        ul_salt_len: 0,
        h_salt_key: 0,
        p_info: b"info",
        ul_info_len: 4,
    };
    assert!(matches!(record.salt(), Err(HkdfError::InvalidDiscriminant)));
}

#[test]
fn invalid_discriminant_zero_rejected() {
    let record = HkdfParams {
        b_extract: 0,
        b_expand: 0,
        prf_hash_mechanism: cryptoki_sys::CKM_SHA256,
        ul_salt_type: 0,
        p_salt: None,
        ul_salt_len: 0,
        h_salt_key: 0,
        p_info: b"",
        ul_info_len: 0,
    };
    assert!(matches!(record.salt(), Err(HkdfError::InvalidDiscriminant)));
}

#[test]
fn object_handle_round_trip() {
    let handle = ObjectHandle::new(123456789);
    assert_eq!(handle.handle(), 123456789);
}

#[test]
fn mechanism_type_round_trip() {
    let mechanism = MechanismType::new(cryptoki_sys::CKM_SHA384);
    assert_eq!(mechanism.value(), cryptoki_sys::CKM_SHA384);
}
