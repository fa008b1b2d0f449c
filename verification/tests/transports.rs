//! Deadlines, cancellation, in-memory reads, TLS parts, and transport order.

use clickhouse_c::async_client::{read_buffer_size, DEFAULT_READ_BUF_BYTES};
use clickhouse_c::error::check;
use clickhouse_c::io::{deadline_us, unsupported_read_timeout};
use clickhouse_c::{sys, tls, Action, CancelToken, ErrorKind, Pump, SliceIo};

#[test]
fn deadlines() {
    assert_eq!(deadline_us(1_000, None), 0);
    assert_eq!(deadline_us(1_000, Some(50_000)), 51_000);
    assert_eq!(deadline_us(1_000, Some(0)), 1_000);
    assert_eq!(deadline_us(0, Some(0)), 1);
    assert_eq!(deadline_us(-10, Some(3)), 1);
    assert_eq!(deadline_us(1_000, Some(u128::MAX)), i64::MAX);
    assert_eq!(deadline_us(i64::MAX, Some(1)), i64::MAX);
    assert_eq!(deadline_us(-5, Some(u128::MAX)), i64::MAX - 5);
}

#[test]
fn missing_timeout_support_is_a_usage_error() {
    let err = unsupported_read_timeout();
    assert_eq!(err.kind, ErrorKind::Usage);
    assert_eq!(err.message, "I/O backend does not support read timeouts");
}

#[test]
fn cancellation_reaches_clones() {
    let token = CancelToken::new();
    let clone = token.clone();
    assert!(!clone.is_cancelled());
    token.cancel();
    assert!(token.is_cancelled());
    assert!(clone.is_cancelled());
    assert!(!CancelToken::default().is_cancelled());
}

#[test]
fn slice_reads_are_consecutive() {
    let mut io = SliceIo::new(b"abcde");
    let mut buf = [0u8; 3];
    assert_eq!(io.read(&mut buf), 3);
    assert_eq!(&buf, b"abc");
    assert_eq!(io.read(&mut []), 0);
    assert_eq!(io.read(&mut buf), 2);
    assert_eq!(&buf, b"dec");
    assert_eq!(io.read(&mut buf), 0);
    assert_eq!(&buf, b"dec");
}

#[test]
fn read_buffer_has_a_default() {
    assert_eq!(DEFAULT_READ_BUF_BYTES, 8 * 1024);
    assert_eq!(read_buffer_size(0), 8 * 1024);
    assert_eq!(read_buffer_size(17), 17);
}

#[test]
fn pump_writes_before_it_reads() {
    let pump = Pump::until_ready();
    assert_eq!(pump.action(10), Action::Write);
    let pump = pump.written(4).ok().expect("progress");
    assert_eq!(pump.action(6), Action::Write);
    let pump = pump.written(6).ok().expect("progress");
    assert_eq!(pump.action(0), Action::Flush);
    let pump = pump.flushed();
    assert_eq!(pump.action(0), Action::Step);
    let pump = pump.stepped(false);
    assert_eq!(pump.action(3), Action::Write);
    let pump = pump.written(3).ok().expect("progress").flushed();
    assert_eq!(pump.action(0), Action::Read);
    let pump = pump.read(5).ok().expect("input");
    assert_eq!(pump.action(0), Action::Step);
    let pump = pump.stepped(true);
    assert_eq!(pump.action(1), Action::Write);
    let pump = pump.written(1).ok().expect("progress").flushed();
    assert_eq!(pump.action(0), Action::Finish);
}

#[test]
fn drain_skips_flush_without_output() {
    let pump = Pump::drain();
    assert_eq!(pump.action(0), Action::Finish);
    let pump = pump.written(9).ok().expect("progress");
    assert_eq!(pump.action(0), Action::Flush);
    assert_eq!(pump.flushed().action(0), Action::Finish);
}

#[test]
fn stalled_transport_is_an_error() {
    let err = Pump::drain().written(0).err().expect("stalled");
    assert_eq!(err.kind, ErrorKind::Io);
    assert_eq!(err.message, "transport write returned zero");
    let err = Pump::until_ready().read(0).err().expect("closed");
    assert_eq!(err.kind, ErrorKind::Eof);
    assert_eq!(err.message, "transport closed");
}

#[test]
fn server_names_are_parsed() {
    let peer = tls::server_name("play.clickhouse.com").ok().expect("DNS name");
    assert_eq!(peer.to_str(), "play.clickhouse.com");
    let peer = tls::server_name("127.0.0.1").ok().expect("address");
    assert_eq!(peer.to_str(), "127.0.0.1");
    let err = tls::server_name("not a name").err().expect("refused");
    assert_eq!(err.kind, ErrorKind::Usage);
    assert_eq!(err.message, "invalid TLS server name: not a name");
}

#[test]
fn roots_and_configurations_are_built() {
    let roots = tls::default_roots();
    assert_eq!(roots.len(), webpki_roots::TLS_SERVER_ROOTS.len());
    assert!(!roots.is_empty());
    let config = tls::config_with_roots(rustls::RootCertStore::empty());
    assert!(config.alpn_protocols.is_empty());
    assert!(!config.client_auth_cert_resolver.has_certs());
    assert!(tls::default_config().enable_sni);
    assert!(!tls::default_config().client_auth_cert_resolver.has_certs());
}

#[test]
fn tls_failures_fill_the_error_record() {
    let mut err = sys::chc_err::zeroed();
    let mut n = 9;
    let rc = tls::finish_read(Ok(4), &mut n, &mut err);
    assert_eq!((rc, n), (sys::CHC_OK, 4));

    let rc = tls::finish_read(Err("reset by peer".to_string()), &mut n, &mut err);
    assert_eq!((rc, n), (sys::CHC_ERR_IO, 4));
    let e = check(rc, &err).expect_err("failed");
    assert_eq!(e.kind, ErrorKind::Io);
    assert_eq!(e.message, "tls read: reset by peer");

    // A shorter message ends at its own zero byte
    let rc = tls::finish_write(Err("x".to_string()), &mut err);
    assert_eq!(check(rc, &err).expect_err("failed").message, "tls write: x");
    assert_eq!(tls::finish_write(Ok(()), &mut err), sys::CHC_OK);
}

#[test]
fn long_message_is_truncated() {
    let mut err = sys::chc_err {
        server_code: 5,
        msg: vec![7; 4],
        server_name: vec![1, 2],
    };
    assert_eq!(tls::set_err(&mut err, 42, "abcdef"), 42);
    assert_eq!(err.server_code, 0);
    assert_eq!(err.msg, b"abc\0");
    assert_eq!(err.server_name, [1, 2]);

    let mut err = sys::chc_err {
        server_code: 5,
        msg: vec![7; 4],
        server_name: Vec::new(),
    };
    tls::set_err(&mut err, 1, "a");
    assert_eq!(err.msg, [b'a', 0, 7, 7]);

    let mut err = sys::chc_err {
        server_code: 5,
        msg: Vec::new(),
        server_name: Vec::new(),
    };
    tls::set_err(&mut err, 1, "a");
    assert!(err.msg.is_empty());
    assert_eq!(err.server_code, 0);
}

#[test]
fn transport_errors_name_their_stage() {
    let err = tls::transport_error("TLS handshake", "bad certificate");
    assert_eq!(err.kind, ErrorKind::Io);
    assert_eq!(err.message, "TLS handshake: bad certificate");
}
