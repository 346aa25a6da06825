use tryx::store::{
    call_result, count_u32, count_u64, flag_result, identity_result, make_err, optional_result, unit_result,
    value_result, StoreOp,
};

#[test]
fn unit_calls_fail_on_any_nonzero_status() {
    assert!(unit_result(0, "put_identity").is_ok());
    assert_eq!(unit_result(2, "put_identity").unwrap_err().message, "put_identity failed");
    assert_eq!(unit_result(-1, "delete_session").unwrap_err().message, "delete_session failed");
    assert_eq!(unit_result(1, "store_prekey").unwrap_err().message, "store_prekey failed");
    assert_eq!(make_err("boom").message, "boom");
}

#[test]
fn lookups_distinguish_missing_from_failed() {
    assert_eq!(optional_result(0, vec![1, 2], "get_session").unwrap(), Some(vec![1, 2]));
    assert_eq!(optional_result(0, vec![], "get_session").unwrap(), Some(vec![]));
    assert_eq!(optional_result(1, vec![9], "get_session").unwrap(), None);
    assert_eq!(optional_result(5, vec![], "load_prekey").unwrap_err().message, "load_prekey failed");
    assert_eq!(value_result(0, 77u32, "get_max_prekey_id").unwrap(), 77);
    assert_eq!(value_result(3, 77u32, "get_max_prekey_id").unwrap_err().message, "get_max_prekey_id failed");
    assert_eq!(flag_result(0, 5, "device_exists").unwrap(), true);
    assert_eq!(flag_result(0, 0, "device_exists").unwrap(), false);
    assert_eq!(flag_result(4, 1, "device_exists").unwrap_err().message, "device_exists failed");
}

#[test]
fn identity_keys_must_be_32_bytes() {
    assert_eq!(identity_result(0, vec![7; 32]).unwrap(), Some(vec![7; 32]));
    assert_eq!(identity_result(0, vec![7; 31]).unwrap_err().message, "invalid identity length");
    assert_eq!(identity_result(1, vec![]).unwrap(), None);
    assert_eq!(identity_result(2, vec![7; 32]).unwrap_err().message, "load_identity failed");
}

#[test]
fn generic_calls_treat_empty_output_as_nothing() {
    assert_eq!(call_result(0, vec![]).unwrap(), None);
    assert_eq!(call_result(0, vec![3]).unwrap(), Some(vec![3]));
    assert_eq!(call_result(1, vec![3]).unwrap_err().message, "FFI call failed");
}

#[test]
fn counts_are_little_endian() {
    assert_eq!(count_u64(&[]), 0);
    assert_eq!(count_u64(&[1, 0, 0, 0, 0, 0, 0, 0]), 1);
    assert_eq!(count_u64(&[0x10, 0x27, 0, 0, 0, 0, 0, 0]), 10_000);
    assert_eq!(count_u64(&[0xff; 8]), u64::MAX);
    assert_eq!(count_u32(&[]), 0);
    assert_eq!(count_u32(&[0, 1, 0, 0]), 256);
    assert_eq!(count_u32(&[0xff, 0xff, 0xff, 0xff]), u32::MAX);
}

#[test]
fn operation_codes() {
    let ops = [
        (StoreOp::PutMutationMacs, 24),
        (StoreOp::GetMutationMac, 25),
        (StoreOp::DeleteMutationMacs, 26),
        (StoreOp::GetSenderKeyDevices, 30),
        (StoreOp::SetSenderKeyStatus, 31),
        (StoreOp::ClearSenderKeyDevices, 32),
        (StoreOp::ClearAllSenderKeyDevices, 33),
        (StoreOp::DeleteSenderKeyDeviceRows, 34),
        (StoreOp::GetLidMapping, 35),
        (StoreOp::PutLidMapping, 37),
        (StoreOp::StoreSentMessage, 52),
        (StoreOp::TakeSentMessage, 53),
        (StoreOp::PutMsgSecrets, 60),
        (StoreOp::GetMsgSecret, 61),
        (StoreOp::DeleteExpiredMsgSecrets, 63),
    ];
    for (op, code) in ops {
        assert_eq!(op.code(), code);
    }
}
