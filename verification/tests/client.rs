//! Client settings, exceptions, and events.

use clickhouse_c::client::{finish_handshake, finish_receive, take_handshake_exception};
use clickhouse_c::{
    ioless, sys, ClientOpts, Codec, Compression, ErrorKind, Event, Exception, ServerInfo, Step,
};

fn exception(code: i32, name: &[u8], text: &[u8]) -> sys::chc_exception {
    sys::chc_exception {
        code,
        name: Some(name.to_vec()),
        display_text: Some(text.to_vec()),
        stack_trace: None,
    }
}

fn block(n_rows: usize) -> sys::chc_block<'static> {
    sys::chc_block {
        n_rows,
        columns: Vec::new(),
        is_overflows: true,
        bucket_num: -1,
    }
}

fn block_packet(kind: i32, payload: Option<sys::chc_block<'static>>) -> sys::chc_packet<'static> {
    sys::chc_packet {
        kind,
        payload: sys::chc_packet_payload::block(payload),
    }
}

/// Compression always requires a codec, including builds without codecs
#[test]
fn compression_without_a_codec_is_a_usage_error() {
    let err = ClientOpts::new()
        .compression(Compression::Lz4)
        .validate_codec(None)
        .expect_err("missing codec");
    assert_eq!(err.kind, ErrorKind::Usage);
    assert_eq!(err.message, "Lz4 compression requires a codec");
}

#[test]
fn compression_requires_matching_codec() {
    let mut codec = Codec::empty();
    let raw = codec.raw_mut();
    raw.lz4_compress = true;
    raw.lz4_decompress = true;
    raw.lz4_bound = true;
    let mismatch = ClientOpts::new()
        .compression(Compression::Zstd)
        .validate_codec(Some(&codec))
        .expect_err("mismatched codec");
    assert_eq!(mismatch.kind, ErrorKind::Usage);
    assert_eq!(mismatch.message, "codec does not support Zstd compression");
    assert!(ClientOpts::new()
        .compression(Compression::Lz4)
        .validate_codec(Some(&codec))
        .is_ok());
}

#[test]
fn empty_codec_supports_only_uncompressed() {
    let codec = Codec::empty();
    assert!(codec.supports(Compression::Uncompressed));
    assert!(!codec.supports(Compression::Lz4));
    assert!(!codec.supports(Compression::Zstd));
}

// Frame allocation requires bound callback before compression
#[test]
fn missing_bound_callback_is_not_support() {
    let mut codec = Codec::empty();
    let raw = codec.raw_mut();
    raw.lz4_compress = true;
    raw.lz4_decompress = true;
    assert!(!codec.supports(Compression::Lz4));

    codec.raw_mut().lz4_bound = true;
    assert!(codec.supports(Compression::Lz4));
}

#[test]
fn zstd_needs_its_own_callbacks() {
    let table = sys::chc_codec {
        zstd_compress: true,
        zstd_decompress: true,
        zstd_bound: true,
        ..Codec::empty().raw
    };
    let codec = Codec::from_raw(table);
    assert!(codec.supports(Compression::Zstd));
    assert!(!codec.supports(Compression::Lz4));
}

/// Verifies client options before protocol output is queued.
#[test]
fn opts_are_validated_without_a_connection() {
    let Err(err) = ClientOpts::new().database("bad\u{0}name").prepare(None) else {
        panic!("interior NUL must be rejected");
    };
    assert_eq!(err.kind, ErrorKind::Usage);
    assert_eq!(err.message, "database has an interior NUL at byte 3");
}

/// Verifies interior null byte is rejected before I/O.
#[test]
fn interior_nul_in_client_opts_is_a_usage_error() {
    let opts = ClientOpts::new().user("def\u{0}ault");
    let Err(err) = opts.prepare(None) else {
        panic!("interior NUL must not reach the server");
    };
    assert_eq!(err.kind, ErrorKind::Usage);
    assert!(err.message.contains("user"), "{}", err.display());
}

#[test]
fn settings_reach_the_record() {
    let mut opts = ClientOpts::new()
        .client_name("svc")
        .database("db")
        .user("me")
        .password("")
        .client_version(9, 8, 7)
        .client_revision(54_460);
    opts.read_buffer_bytes = 4096;
    let raw = opts.prepare(None).ok().expect("valid").raw;
    assert_eq!(raw.client_name.as_deref(), Some(&b"svc\0"[..]));
    assert_eq!(raw.database.as_deref(), Some(&b"db\0"[..]));
    assert_eq!(raw.user.as_deref(), Some(&b"me\0"[..]));
    assert_eq!(raw.password.as_deref(), Some(&b"\0"[..]));
    assert_eq!(
        (
            raw.client_version_major,
            raw.client_version_minor,
            raw.client_version_patch
        ),
        (9, 8, 7)
    );
    assert_eq!(raw.client_revision, 54_460);
    assert_eq!(raw.compression, sys::CHC_COMP_NONE);
    assert_eq!(raw.codec, None);
    assert_eq!(raw.read_buffer_bytes, 4096);
}

#[test]
fn defaults_leave_texts_out() {
    let raw = ClientOpts::new().to_raw(None).ok().expect("valid");
    let raw = raw.as_raw();
    assert!(raw.client_name.is_none());
    assert!(raw.database.is_none());
    assert!(raw.user.is_none());
    assert!(raw.password.is_none());
    assert_eq!(raw.client_revision, 0);
    let zeroed = sys::chc_client_opts::zeroed();
    assert!(zeroed.client_name.is_none() && zeroed.password.is_none());
    assert_eq!(zeroed.compression, raw.compression);
    assert_eq!(zeroed.codec, raw.codec);
    assert_eq!(zeroed.read_buffer_bytes, raw.read_buffer_bytes);
}

#[test]
fn codec_is_checked_before_texts() {
    let err = ClientOpts::new()
        .compression(Compression::Lz4)
        .user("\u{0}")
        .prepare(None)
        .err()
        .expect("no codec");
    assert_eq!(err.message, "Lz4 compression requires a codec");

    let err = ClientOpts::new()
        .client_name("a\u{0}")
        .password("\u{0}")
        .prepare(None)
        .err()
        .expect("bad name");
    assert_eq!(err.message, "client name has an interior NUL at byte 1");
}

#[test]
fn codec_table_reaches_the_record() {
    let mut codec = Codec::empty();
    *codec.raw_mut() = sys::chc_codec {
        lz4_compress: true,
        lz4_decompress: true,
        lz4_bound: true,
        ..codec.raw
    };
    let raw = ClientOpts::new()
        .compression(Compression::Lz4)
        .prepare(Some(&codec))
        .ok()
        .expect("valid")
        .raw;
    assert_eq!(raw.compression, sys::CHC_COMP_LZ4);
    assert_eq!(raw.codec, Some(codec.raw));
}

#[test]
fn server_information_is_decoded() {
    let info = ServerInfo::from_raw(&sys::chc_server_info {
        name: b"ClickHouse\0\0\0".to_vec(),
        timezone: b"UTC\0".to_vec(),
        display_name: b"box".to_vec(),
        version_major: 25,
        version_minor: 3,
        version_patch: 1,
        revision: 54_475,
    });
    assert_eq!(info.name, "ClickHouse");
    assert_eq!(info.timezone, "UTC");
    assert_eq!(info.display_name, "box");
    assert_eq!(
        (info.version_major, info.version_minor, info.version_patch),
        (25, 3, 1)
    );
    assert_eq!(info.revision, 54_475);
}

#[test]
fn exception_is_shown_and_converted() {
    let exc = Exception::from_raw(exception(81, b"DB::Exception", b"no such database"));
    assert_eq!(exc.code(), 81);
    assert_eq!(exc.name(), b"DB::Exception");
    assert_eq!(exc.display_text(), b"no such database");
    assert_eq!(exc.stack_trace(), b"");
    assert_eq!(exc.display(), "DB::Exception (code 81): no such database");
    let err = exc.into_error();
    assert_eq!(err.kind, ErrorKind::Server);
    assert_eq!(err.server_code, 81);
    assert_eq!(err.server_name, "DB::Exception");
    assert_eq!(err.message, "no such database");
}

#[test]
fn rejection_goes_before_the_result_code() {
    let clean = sys::chc_err::zeroed();
    let err = finish_handshake(
        sys::CHC_ERR_PROTOCOL,
        &clean,
        Some(exception(81, b"DB::Exception", b"no such database")),
    )
    .expect_err("rejected");
    assert_eq!(err.kind, ErrorKind::Server);
    assert_eq!(err.server_code, 81);

    let err = ioless::finish_handshake(
        sys::CHC_WOULD_BLOCK,
        &clean,
        Some(exception(81, b"DB::Exception", b"no such database")),
    )
    .expect_err("rejected");
    assert_eq!(err.kind, ErrorKind::Server);
    assert_eq!(err.message, "no such database");

    assert!(finish_handshake(sys::CHC_OK, &clean, None).is_ok());
    let err = finish_handshake(sys::CHC_ERR_EOF, &clean, None).expect_err("closed");
    assert_eq!(err.kind, ErrorKind::Eof);
    assert!(take_handshake_exception(None).is_none());
}

#[test]
fn long_rejection_is_not_truncated() {
    let text = vec![b'x'; 3 * sys::CHC_ERR_MSG_LEN];
    let err = take_handshake_exception(Some(exception(1, b"E", &text))).expect("exception");
    assert_eq!(err.message.len(), text.len());
}

#[test]
fn handshake_step_waits_for_input() {
    let clean = sys::chc_err::zeroed();
    let step = ioless::finish_handshake(sys::CHC_WOULD_BLOCK, &clean, None).expect("no error");
    assert_eq!(step, Step::NeedsInput);
    assert!(!step.is_ready());
    let step = ioless::finish_handshake(sys::CHC_OK, &clean, None).expect("no error");
    assert!(step.is_ready());
    assert_eq!(step.ready(), Some(()));
    assert!(ioless::step(sys::CHC_ERR_IO, &clean).is_err());
}

#[test]
fn step_value_is_mapped() {
    assert_eq!(Step::Ready(20).map_ready(|n| n + 1), Step::Ready(21));
    let waiting: Step<i32> = Step::NeedsInput;
    assert_eq!(waiting.map_ready(|n| n + 1).ready(), None);
}

#[test]
fn block_packets_give_their_block_once() {
    let clean = sys::chc_err::zeroed();
    for kind in [
        sys::CHC_PKT_DATA,
        sys::CHC_PKT_TOTALS,
        sys::CHC_PKT_EXTREMES,
        sys::CHC_PKT_LOG,
        sys::CHC_PKT_PROFILE_EVENTS,
    ] {
        let mut packet = block_packet(kind, Some(block(7)));
        let event = finish_receive(sys::CHC_OK, &clean, &mut packet).ok().expect("event");
        let block = match event {
            Event::Data(b) if kind == sys::CHC_PKT_DATA => b,
            Event::Totals(b) if kind == sys::CHC_PKT_TOTALS => b,
            Event::Extremes(b) if kind == sys::CHC_PKT_EXTREMES => b,
            Event::Log(b) if kind == sys::CHC_PKT_LOG => b,
            Event::ProfileEvents(b) if kind == sys::CHC_PKT_PROFILE_EVENTS => b,
            _ => panic!("wrong event"),
        };
        assert_eq!(block.n_rows(), 7);
        assert_eq!(block.n_columns(), 0);
        assert!(block.is_overflows());
        assert_eq!(block.bucket_num(), -1);
        assert!(matches!(packet.payload, sys::chc_packet_payload::block(None)));

        let err = finish_receive(sys::CHC_OK, &clean, &mut packet).err().expect("taken");
        assert_eq!(err.kind, ErrorKind::Protocol);
        assert_eq!(err.message, "block packet missing block");
    }
}

#[test]
fn exception_packet_gives_its_exception_once() {
    let mut packet = sys::chc_packet {
        kind: sys::CHC_PKT_EXCEPTION,
        payload: sys::chc_packet_payload::exception(Some(exception(60, b"DB", b"missing"))),
    };
    match Event::from_raw(&mut packet) {
        Ok(Event::Exception(exc)) => assert_eq!(exc.code(), 60),
        _ => panic!("wrong event"),
    }
    let err = Event::from_raw(&mut packet).err().expect("taken");
    assert_eq!(err.message, "exception packet missing exception");
}

#[test]
fn counters_are_copied() {
    let mut packet = sys::chc_packet {
        kind: sys::CHC_PKT_PROGRESS,
        payload: sys::chc_packet_payload::progress(sys::chc_packet_progress {
            rows: 1,
            bytes: 2,
            total_rows: 3,
            written_rows: 4,
            written_bytes: 5,
        }),
    };
    match Event::from_raw(&mut packet) {
        Ok(Event::Progress(p)) => assert_eq!(
            (p.rows, p.bytes, p.total_rows, p.written_rows, p.written_bytes),
            (1, 2, 3, 4, 5)
        ),
        _ => panic!("wrong event"),
    }
    let mut packet = sys::chc_packet {
        kind: sys::CHC_PKT_PROFILE_INFO,
        payload: sys::chc_packet_payload::profile(sys::chc_packet_profile {
            rows: 1,
            blocks: 2,
            bytes: 3,
            rows_before_limit: 4,
            applied_limit: 2,
            calculated_rows_before_limit: 0,
        }),
    };
    match Event::from_raw(&mut packet) {
        Ok(Event::ProfileInfo(p)) => {
            assert_eq!((p.rows, p.blocks, p.bytes, p.rows_before_limit), (1, 2, 3, 4));
            assert!(p.applied_limit);
            assert!(!p.calculated_rows_before_limit);
        }
        _ => panic!("wrong event"),
    }
}

#[test]
fn markers_and_unknown_packets() {
    for kind in [
        sys::CHC_PKT_PONG,
        sys::CHC_PKT_END_OF_STREAM,
        sys::CHC_PKT_TABLE_COLUMNS,
    ] {
        let event = Event::from_raw(&mut block_packet(kind, None)).ok().expect("marker");
        assert!(match event {
            Event::Pong => kind == sys::CHC_PKT_PONG,
            Event::EndOfStream => kind == sys::CHC_PKT_END_OF_STREAM,
            Event::TableColumns => kind == sys::CHC_PKT_TABLE_COLUMNS,
            _ => false,
        });
    }
    let mut packet = sys::chc_packet::zeroed();
    packet.kind = -9;
    let err = Event::from_raw(&mut packet).err().expect("unknown");
    assert_eq!(err.kind, ErrorKind::Protocol);
    assert_eq!(err.message, "unknown server packet -9");
}

#[test]
fn failed_receive_leaves_the_packet() {
    let clean = sys::chc_err::zeroed();
    let mut packet = block_packet(sys::CHC_PKT_DATA, Some(block(1)));
    let step = ioless::finish_receive(sys::CHC_WOULD_BLOCK, &clean, &mut packet);
    assert!(matches!(step, Ok(Step::NeedsInput)));
    assert!(ioless::finish_receive(sys::CHC_ERR_IO, &clean, &mut packet).is_err());
    assert!(finish_receive(sys::CHC_ERR_IO, &clean, &mut packet).is_err());
    match ioless::finish_receive(sys::CHC_OK, &clean, &mut packet) {
        Ok(Step::Ready(Event::Data(b))) => assert_eq!(b.n_rows(), 1),
        _ => panic!("block must still be there"),
    }
}
