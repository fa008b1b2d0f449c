//! Result codes, error records, and the text of errors.

use clickhouse_c::error::{check, Error, ErrorKind};
use clickhouse_c::{sys, text};

fn err_with(msg: &str) -> sys::chc_err {
    let mut e = sys::chc_err::zeroed();
    for (slot, b) in e.msg.iter_mut().zip(msg.bytes()) {
        *slot = b;
    }
    e
}

// Compressed receive can leave stale text in `err` after successful return
#[test]
fn ok_rc_ignores_stale_err() {
    let stale = err_with("ioless buffer drained");
    assert!(check(sys::CHC_OK, &stale).is_ok());
}

#[test]
fn error_rc_surfaces_kind() {
    let e = err_with("bad handshake");
    let err = check(sys::CHC_ERR_PROTOCOL, &e).unwrap_err();
    assert_eq!(err.kind, ErrorKind::Protocol);
    assert_eq!(err.message, "bad handshake");
}

#[test]
fn zeroed_record_has_its_capacity() {
    let e = sys::chc_err::zeroed();
    assert_eq!(e.server_code, 0);
    assert_eq!(e.msg, vec![0u8; sys::CHC_ERR_MSG_LEN]);
    assert_eq!(e.server_name, vec![0u8; sys::CHC_ERR_NAME_LEN]);
}

#[test]
fn server_fields_come_from_the_record() {
    let mut e = err_with("Unknown table");
    e.server_code = 60;
    e.server_name[..3].copy_from_slice(b"DB:");
    let err = Error::from_raw(sys::CHC_ERR_SERVER, &e);
    assert_eq!(err.kind, ErrorKind::Server);
    assert_eq!(err.server_code, 60);
    assert_eq!(err.server_name, "DB:");
    assert_eq!(err.display(), "clickhouse-c: Server: Unknown table");
}

#[test]
fn other_errors_have_no_server_fields() {
    let mut e = err_with("cut off");
    e.server_code = 60;
    e.server_name[..2].copy_from_slice(b"DB");
    let err = Error::from_raw(sys::CHC_ERR_EOF, &e);
    assert_eq!(err.kind, ErrorKind::Eof);
    assert_eq!(err.server_code, 0);
    assert_eq!(err.server_name, "");
    assert_eq!(err.message, "cut off");
}

#[test]
fn unknown_code_is_kept() {
    let err = check(1234, &err_with("odd")).unwrap_err();
    assert_eq!(err.kind, ErrorKind::Other(1234));
    assert_eq!(err.display(), "clickhouse-c: Other(1234): odd");
}

#[test]
fn message_ends_at_first_zero_byte() {
    assert_eq!(text::c_array_text(b"abc\0def"), "abc");
    assert_eq!(text::c_array_text(b"abc"), "abc");
    assert_eq!(text::c_array_text(b"\0abc"), "");
    assert_eq!(text::c_array_text(b""), "");
}

#[test]
fn invalid_bytes_are_replaced() {
    assert_eq!(text::c_array_text(b"a\xFFb\0"), "a\u{FFFD}b");
    assert_eq!(text::c_array_text("gr\u{fc}n".as_bytes()), "gr\u{fc}n");
}

#[test]
fn numbers_are_written_in_decimal() {
    assert_eq!(text::decimal_text(0), "0");
    assert_eq!(text::decimal_text(1907), "1907");
    assert_eq!(text::decimal_text(u64::MAX), "18446744073709551615");
    assert_eq!(text::signed_decimal_text(-42), "-42");
    assert_eq!(text::signed_decimal_text(42), "42");
    assert_eq!(text::signed_decimal_text(i64::MIN), "-9223372036854775808");
}

#[test]
fn standard_io_error_keeps_its_text() {
    let err = Error::from_io(std::io::Error::other("cable unplugged"));
    assert_eq!(err.kind, ErrorKind::Io);
    assert_eq!(err.message, "cable unplugged");
    assert_eq!(err.server_code, 0);
    assert_eq!(err.server_name, "");
}
