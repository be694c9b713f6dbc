use mdbx4rs::error::{MDBX_INVALID, MDBX_NOTFOUND, MDBX_RESULT_TRUE, MDBX_SUCCESS};
use mdbx4rs::transaction::REPLACE_MIN_BUFFER;
use mdbx4rs::{
    checked_value, checked_value_strict, commit_latency_result, copy_destination, latency_ms,
    sequence_result, max_key_size_from, mdbx_result, push_database_name,
    replace_buffer_len, replace_step, take_old_value, CommitLatency, ErrorCode, ReplaceAction,
    ReplaceCall, TxnInfo,
};

#[test]
fn result_success_is_false() {
    assert_eq!(mdbx_result(0), Ok(false));
}

#[test]
fn result_true_is_true() {
    assert_eq!(mdbx_result(-1), Ok(true));
}

#[test]
fn result_not_found_keeps_code() {
    assert_eq!(mdbx_result(-30798), Err(ErrorCode { code: -30798 }));
}

#[test]
fn result_system_error_keeps_code() {
    assert_eq!(mdbx_result(13), Err(ErrorCode { code: 13 }));
    assert_eq!(mdbx_result(1), Err(ErrorCode { code: 1 }));
}

#[test]
fn code_constants_match_the_c_header() {
    assert_eq!(MDBX_SUCCESS, 0);
    assert_eq!(MDBX_RESULT_TRUE, -1);
    assert_eq!(MDBX_NOTFOUND, -30798);
    assert_eq!(MDBX_INVALID, -30793);
}

#[test]
fn checked_value_on_success() {
    assert_eq!(checked_value(0, 42u64), Ok(42u64));
    assert_eq!(checked_value(-1, 7usize), Ok(7usize));
}

#[test]
fn checked_value_on_failure() {
    assert_eq!(checked_value(-30793, 42u64), Err(ErrorCode { code: -30793 }));
    assert_eq!(checked_value(22, 0u32), Err(ErrorCode { code: 22 }));
}

#[test]
fn copy_destination_rejects_non_utf8_path() {
    assert_eq!(copy_destination(None), Err(ErrorCode { code: MDBX_INVALID }));
}

#[test]
fn copy_destination_rejects_nul_byte() {
    assert_eq!(copy_destination(Some("/tmp/a\0b")), Err(ErrorCode { code: MDBX_INVALID }));
    assert_eq!(copy_destination(Some("\0")), Err(ErrorCode { code: MDBX_INVALID }));
}

#[test]
fn copy_destination_keeps_path_bytes() {
    assert_eq!(copy_destination(Some("/tmp/backup")), Ok(b"/tmp/backup".to_vec()));
    assert_eq!(copy_destination(Some("")), Ok(Vec::new()));
    assert_eq!(copy_destination(Some("/tmp/\u{e9}")), Ok(vec![b'/', b't', b'm', b'p', b'/', 0xc3, 0xa9]));
}

#[test]
fn max_key_size_negative_is_invalid() {
    assert_eq!(max_key_size_from(-1), Err(ErrorCode { code: MDBX_INVALID }));
    assert_eq!(max_key_size_from(isize::MIN), Err(ErrorCode { code: MDBX_INVALID }));
}

#[test]
fn max_key_size_non_negative_is_kept() {
    assert_eq!(max_key_size_from(0), Ok(0));
    assert_eq!(max_key_size_from(2022), Ok(2022));
}

#[test]
fn replace_buffer_has_a_floor() {
    assert_eq!(REPLACE_MIN_BUFFER, 256);
    assert_eq!(replace_buffer_len(0), 256);
    assert_eq!(replace_buffer_len(255), 256);
    assert_eq!(replace_buffer_len(256), 256);
    assert_eq!(replace_buffer_len(1000), 1000);
}

#[test]
fn replace_first_call_too_small_retries_with_reported_size() {
    assert_eq!(
        replace_step(ReplaceCall::First, MDBX_RESULT_TRUE, 4096, true, false),
        ReplaceAction::Retry { buffer_len: 4096 }
    );
}

#[test]
fn replace_first_call_not_found_is_absent() {
    assert_eq!(replace_step(ReplaceCall::First, MDBX_NOTFOUND, 0, true, false), ReplaceAction::Absent);
}

#[test]
fn replace_first_call_success_reads_value() {
    assert_eq!(
        replace_step(ReplaceCall::First, MDBX_SUCCESS, 5, false, true),
        ReplaceAction::FromBuffer { len: 5 }
    );
    assert_eq!(
        replace_step(ReplaceCall::First, MDBX_SUCCESS, 5, false, false),
        ReplaceAction::FromPage { len: 5 }
    );
}

#[test]
fn replace_first_call_error_fails() {
    assert_eq!(
        replace_step(ReplaceCall::First, -30799, 0, false, true),
        ReplaceAction::Failed(ErrorCode { code: -30799 })
    );
}

#[test]
fn replace_retry_never_retries_again() {
    assert_eq!(
        replace_step(ReplaceCall::Retry, MDBX_SUCCESS, 9, false, true),
        ReplaceAction::FromBuffer { len: 9 }
    );
    assert_eq!(
        replace_step(ReplaceCall::Retry, MDBX_SUCCESS, 9, false, false),
        ReplaceAction::FromPage { len: 9 }
    );
    assert_eq!(
        replace_step(ReplaceCall::Retry, MDBX_RESULT_TRUE, 9, true, false),
        ReplaceAction::Failed(ErrorCode { code: MDBX_RESULT_TRUE })
    );
}

#[test]
fn replace_retry_not_found_is_an_error() {
    assert_eq!(
        replace_step(ReplaceCall::Retry, MDBX_NOTFOUND, 0, true, false),
        ReplaceAction::Failed(ErrorCode { code: MDBX_NOTFOUND })
    );
}

#[test]
fn take_old_value_truncates_buffer() {
    assert_eq!(take_old_value(vec![1, 2, 3, 4], 2), vec![1, 2]);
    assert_eq!(take_old_value(vec![1, 2, 3, 4], 0), Vec::<u8>::new());
    assert_eq!(take_old_value(vec![1, 2, 3], 10), vec![1, 2, 3]);
}

#[test]
fn database_names_keep_utf8_keys_in_order() {
    let mut names: Vec<String> = Vec::new();
    push_database_name(&mut names, b"my_store".to_vec());
    push_database_name(&mut names, vec![0xff, 0xfe]);
    push_database_name(&mut names, "caf\u{e9}".as_bytes().to_vec());
    push_database_name(&mut names, Vec::new());
    assert_eq!(names, vec!["my_store".to_string(), "caf\u{e9}".to_string(), String::new()]);
}

#[test]
fn database_names_skip_invalid_utf8() {
    let mut names: Vec<String> = vec!["a".to_string()];
    push_database_name(&mut names, vec![0xc3]);
    push_database_name(&mut names, vec![0xed, 0xa0, 0x80]);
    assert_eq!(names, vec!["a".to_string()]);
}

#[test]
fn commit_latency_default_is_zero() {
    let l = CommitLatency::default();
    assert_eq!(
        (l.preparation, l.gc, l.audit, l.write, l.sync, l.ending, l.whole),
        (0, 0, 0, 0, 0, 0, 0)
    );
}

#[test]
fn txn_info_default_is_zero() {
    let i = TxnInfo::default();
    assert_eq!((i.id, i.reader_lag, i.space_used, i.space_limit_soft), (0, 0, 0, 0));
    assert_eq!((i.space_limit_hard, i.space_retired, i.space_leftover, i.space_dirty), (0, 0, 0, 0));
}

#[test]
fn replace_absent_key_inserted_is_absent() {
    assert_eq!(replace_step(ReplaceCall::First, MDBX_SUCCESS, 0, true, false), ReplaceAction::Absent);
    assert_eq!(replace_step(ReplaceCall::Retry, MDBX_SUCCESS, 0, true, false), ReplaceAction::Absent);
}

#[test]
fn replace_present_empty_value_is_found() {
    assert_eq!(
        replace_step(ReplaceCall::First, MDBX_SUCCESS, 0, false, true),
        ReplaceAction::FromBuffer { len: 0 }
    );
}

#[test]
fn checked_value_strict_only_success() {
    assert_eq!(checked_value_strict(0, 41u64), Ok(41u64));
    assert_eq!(checked_value_strict(-1, 41u64), Err(ErrorCode { code: -1 }));
    assert_eq!(checked_value_strict(-30798, 41u64), Err(ErrorCode { code: -30798 }));
}

#[test]
fn latency_is_converted_to_milliseconds() {
    assert_eq!(latency_ms(0), 0);
    assert_eq!(latency_ms(65536), 1000);
    assert_eq!(latency_ms(65), 0);
    assert_eq!(latency_ms(66), 1);
    assert_eq!(latency_ms(32768), 500);
    assert_eq!(latency_ms(u32::MAX), 65535999);
}

#[test]
fn commit_latency_from_raw_converts_every_field() {
    let l = CommitLatency::from_raw(65536, 131072, 0, 6554, 32768, 655360, 1);
    assert_eq!(
        (l.preparation, l.gc, l.audit, l.write, l.sync, l.ending, l.whole),
        (1000, 2000, 0, 100, 500, 10000, 0)
    );
}

#[test]
fn sequence_overflow_is_an_error() {
    assert_eq!(sequence_result(0, 5), Ok(5));
    assert_eq!(sequence_result(-1, 5), Err(ErrorCode { code: -1 }));
    assert_eq!(sequence_result(13, 5), Err(ErrorCode { code: 13 }));
}

#[test]
fn aborted_commit_is_an_error() {
    assert_eq!(
        commit_latency_result(-1, 65536, 0, 0, 0, 0, 0, 65536).map(|l| l.whole),
        Err(ErrorCode { code: -1 })
    );
    let l = commit_latency_result(0, 65536, 0, 0, 0, 0, 0, 131072).unwrap();
    assert_eq!((l.preparation, l.whole), (1000, 2000));
}
