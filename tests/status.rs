use tirocks_sys::{
    check_status, ffi_try, r, rocksdb_Status, rocksdb_Status_Code, rocksdb_Status_Severity,
    rocksdb_Status_SubCode, s,
};

fn failing_call(
    code: rocksdb_Status_Code,
    msg: &[u8],
    ran_after: &mut bool,
) -> Result<u32, rocksdb_Status> {
    let v = ffi_try(|_st: rocksdb_Status| {
        let mut st = rocksdb_Status::with_error(code, msg);
        st.set_sub_code(rocksdb_Status_SubCode::kNoSpace);
        st.set_severity(rocksdb_Status_Severity::kHardError);
        (7u32, st)
    })?;
    *ran_after = true;
    Ok(v + 1)
}

#[test]
fn slice_round_trip_keeps_bytes_and_length() {
    let data: Vec<u8> = b"rocksdb.cfstats-no-file-histogram".to_vec();
    let back = s(r(&data));
    assert_eq!(back, &data[..]);
    assert_eq!(back.len(), data.len());
    assert_eq!(back.as_ptr(), data.as_ptr());
}

#[test]
fn slice_round_trip_empty() {
    let data: [u8; 0] = [];
    let back = s(r(&data));
    assert!(back.is_empty());
}

#[test]
fn ok_status_defaults() {
    let st = rocksdb_Status::with_code(rocksdb_Status_Code::kOk);
    assert!(st.ok());
    assert_eq!(st.state(), None);
    assert_eq!(st.code(), rocksdb_Status_Code::kOk);
    assert_eq!(st.sub_code(), rocksdb_Status_SubCode::kNone);
    assert_eq!(st.severity(), rocksdb_Status_Severity::kNoError);
    assert_eq!(st.message().unwrap(), None);
}

#[test]
fn with_code_keeps_a_failure_code() {
    let st = rocksdb_Status::with_code(rocksdb_Status_Code::kBusy);
    assert!(!st.ok());
    assert_eq!(st.code(), rocksdb_Status_Code::kBusy);
    assert_eq!(st.state(), None);
}

#[test]
fn error_status_carries_message() {
    let st = rocksdb_Status::with_error(
        rocksdb_Status_Code::kInvalidArgument,
        "x does not exist".as_bytes(),
    );
    assert!(!st.ok());
    assert_eq!(st.code_, rocksdb_Status_Code::kInvalidArgument);
    assert_eq!(st.code(), rocksdb_Status_Code::kInvalidArgument);
    assert_eq!(st.message().unwrap(), Some("x does not exist"));
    assert_eq!(st.state(), Some(&b"x does not exist"[..]));
    assert_eq!(st.sub_code(), rocksdb_Status_SubCode::kNone);
    assert_eq!(st.severity(), rocksdb_Status_Severity::kNoError);
}

#[test]
fn error_status_with_empty_message_has_no_buffer() {
    let st = rocksdb_Status::with_error(rocksdb_Status_Code::kNotFound, b"");
    assert!(!st.ok());
    assert_eq!(st.state(), None);
    assert_eq!(st.message().unwrap(), None);
}

#[test]
fn error_message_stops_at_nul_byte() {
    let st = rocksdb_Status::with_error(rocksdb_Status_Code::kCorruption, b"bad\0tail");
    assert_eq!(st.state(), Some(&b"bad"[..]));
    let st = rocksdb_Status::with_error(rocksdb_Status_Code::kCorruption, b"\0tail");
    assert_eq!(st.state(), Some(&b""[..]));
}

#[test]
fn invalid_utf8_message_is_a_decoding_error() {
    let st = rocksdb_Status::with_error(rocksdb_Status_Code::kIOError, &[0x66, 0xff, 0x67]);
    assert_eq!(st.state(), Some(&[0x66u8, 0xff, 0x67][..]));
    assert!(st.message().is_err());
}

#[test]
fn setters_refine_a_status() {
    let mut st = rocksdb_Status::with_error(rocksdb_Status_Code::kIOError, b"disk");
    st.set_sub_code(rocksdb_Status_SubCode::kNoSpace);
    st.set_severity(rocksdb_Status_Severity::kFatalError);
    assert_eq!(st.sub_code(), rocksdb_Status_SubCode::kNoSpace);
    assert_eq!(st.severity(), rocksdb_Status_Severity::kFatalError);
    assert_eq!(st.code(), rocksdb_Status_Code::kIOError);
    assert_eq!(st.message().unwrap(), Some("disk"));
}

#[test]
fn release_twice_is_a_no_op() {
    let mut st = rocksdb_Status::with_error(rocksdb_Status_Code::kAborted, b"gone");
    st.clear_state();
    assert_eq!(st.state(), None);
    assert_eq!(st.code(), rocksdb_Status_Code::kAborted);
    st.clear_state();
    assert_eq!(st.state(), None);
    assert_eq!(st.message().unwrap(), None);
    drop(st);
}

#[test]
fn check_status_passes_value_on_ok() {
    let st = rocksdb_Status::with_code(rocksdb_Status_Code::kOk);
    assert_eq!(check_status(42u64, st).unwrap(), 42);
}

#[test]
fn check_status_hands_back_failed_status() {
    let st = rocksdb_Status::with_error(rocksdb_Status_Code::kTimedOut, b"slow");
    let e = check_status(42u64, st).unwrap_err();
    assert_eq!(e.code(), rocksdb_Status_Code::kTimedOut);
    assert_eq!(e.message().unwrap(), Some("slow"));
}

#[test]
fn ffi_try_yields_value_of_successful_call() {
    let got = ffi_try(|st: rocksdb_Status| {
        assert!(st.ok());
        assert_eq!(st.state(), None);
        (vec![1u8, 2, 3], st)
    });
    assert_eq!(got.unwrap(), vec![1u8, 2, 3]);
}

#[test]
fn ffi_try_stops_on_failed_call() {
    let mut ran_after = false;
    let e = failing_call(
        rocksdb_Status_Code::kInvalidArgument,
        b"x does not exist",
        &mut ran_after,
    )
    .unwrap_err();
    assert!(!ran_after);
    assert!(!e.ok());
    assert_eq!(e.code(), rocksdb_Status_Code::kInvalidArgument);
    assert_eq!(e.sub_code(), rocksdb_Status_SubCode::kNoSpace);
    assert_eq!(e.severity(), rocksdb_Status_Severity::kHardError);
    let msg = e.message().unwrap().unwrap();
    assert!(msg.contains("does not exist"), "{}", msg);
}
