//! Codes of the C interface and the variants that stand for them.

use clickhouse_c::error::ErrorKind;
use clickhouse_c::{sys, ColumnLayout, Compression, IntervalUnit, Kind, PacketKind};

const KINDS: &[(&str, i32)] = &[
    ("CHC_VOID", sys::CHC_VOID),
    ("CHC_INT8", sys::CHC_INT8),
    ("CHC_INT16", sys::CHC_INT16),
    ("CHC_INT32", sys::CHC_INT32),
    ("CHC_INT64", sys::CHC_INT64),
    ("CHC_INT128", sys::CHC_INT128),
    ("CHC_INT256", sys::CHC_INT256),
    ("CHC_UINT8", sys::CHC_UINT8),
    ("CHC_UINT16", sys::CHC_UINT16),
    ("CHC_UINT32", sys::CHC_UINT32),
    ("CHC_UINT64", sys::CHC_UINT64),
    ("CHC_UINT128", sys::CHC_UINT128),
    ("CHC_UINT256", sys::CHC_UINT256),
    ("CHC_FLOAT32", sys::CHC_FLOAT32),
    ("CHC_FLOAT64", sys::CHC_FLOAT64),
    ("CHC_BFLOAT16", sys::CHC_BFLOAT16),
    ("CHC_BOOL", sys::CHC_BOOL),
    ("CHC_DATE", sys::CHC_DATE),
    ("CHC_DATE32", sys::CHC_DATE32),
    ("CHC_DATETIME", sys::CHC_DATETIME),
    ("CHC_DATETIME64", sys::CHC_DATETIME64),
    ("CHC_TIME", sys::CHC_TIME),
    ("CHC_TIME64", sys::CHC_TIME64),
    ("CHC_STRING", sys::CHC_STRING),
    ("CHC_FIXED_STRING", sys::CHC_FIXED_STRING),
    ("CHC_DECIMAL32", sys::CHC_DECIMAL32),
    ("CHC_DECIMAL64", sys::CHC_DECIMAL64),
    ("CHC_DECIMAL128", sys::CHC_DECIMAL128),
    ("CHC_DECIMAL256", sys::CHC_DECIMAL256),
    ("CHC_UUID", sys::CHC_UUID),
    ("CHC_IPV4", sys::CHC_IPV4),
    ("CHC_IPV6", sys::CHC_IPV6),
    ("CHC_ENUM8", sys::CHC_ENUM8),
    ("CHC_ENUM16", sys::CHC_ENUM16),
    ("CHC_NULLABLE", sys::CHC_NULLABLE),
    ("CHC_ARRAY", sys::CHC_ARRAY),
    ("CHC_TUPLE", sys::CHC_TUPLE),
    ("CHC_MAP", sys::CHC_MAP),
    ("CHC_NESTED", sys::CHC_NESTED),
    ("CHC_LOW_CARDINALITY", sys::CHC_LOW_CARDINALITY),
    ("CHC_INTERVAL", sys::CHC_INTERVAL),
    ("CHC_POINT", sys::CHC_POINT),
    ("CHC_RING", sys::CHC_RING),
    ("CHC_POLYGON", sys::CHC_POLYGON),
    ("CHC_MULTI_POLYGON", sys::CHC_MULTI_POLYGON),
    ("CHC_VARIANT", sys::CHC_VARIANT),
    ("CHC_DYNAMIC", sys::CHC_DYNAMIC),
    ("CHC_JSON", sys::CHC_JSON),
    ("CHC_OBJECT", sys::CHC_OBJECT),
    ("CHC_AGGREGATE_FUNCTION", sys::CHC_AGGREGATE_FUNCTION),
    (
        "CHC_SIMPLE_AGGREGATE_FUNCTION",
        sys::CHC_SIMPLE_AGGREGATE_FUNCTION,
    ),
    ("CHC_NOTHING", sys::CHC_NOTHING),
    ("CHC_QBIT", sys::CHC_QBIT),
];

const UNITS: &[(&str, i32)] = &[
    ("CHC_INTERVAL_NONE", sys::CHC_INTERVAL_NONE),
    ("CHC_INTERVAL_NANOSECOND", sys::CHC_INTERVAL_NANOSECOND),
    ("CHC_INTERVAL_MICROSECOND", sys::CHC_INTERVAL_MICROSECOND),
    ("CHC_INTERVAL_MILLISECOND", sys::CHC_INTERVAL_MILLISECOND),
    ("CHC_INTERVAL_SECOND", sys::CHC_INTERVAL_SECOND),
    ("CHC_INTERVAL_MINUTE", sys::CHC_INTERVAL_MINUTE),
    ("CHC_INTERVAL_HOUR", sys::CHC_INTERVAL_HOUR),
    ("CHC_INTERVAL_DAY", sys::CHC_INTERVAL_DAY),
    ("CHC_INTERVAL_WEEK", sys::CHC_INTERVAL_WEEK),
    ("CHC_INTERVAL_MONTH", sys::CHC_INTERVAL_MONTH),
    ("CHC_INTERVAL_QUARTER", sys::CHC_INTERVAL_QUARTER),
    ("CHC_INTERVAL_YEAR", sys::CHC_INTERVAL_YEAR),
];

const LAYOUTS: &[(&str, i32)] = &[
    ("CHC_COL_FIXED", sys::CHC_COL_FIXED),
    ("CHC_COL_STRING", sys::CHC_COL_STRING),
    ("CHC_COL_NULLABLE", sys::CHC_COL_NULLABLE),
    ("CHC_COL_ARRAY", sys::CHC_COL_ARRAY),
    ("CHC_COL_TUPLE", sys::CHC_COL_TUPLE),
    ("CHC_COL_LOW_CARDINALITY", sys::CHC_COL_LOW_CARDINALITY),
    ("CHC_COL_NOTHING", sys::CHC_COL_NOTHING),
];

const PACKETS: &[(&str, i32)] = &[
    ("CHC_PKT_HELLO", sys::CHC_PKT_HELLO),
    ("CHC_PKT_DATA", sys::CHC_PKT_DATA),
    ("CHC_PKT_EXCEPTION", sys::CHC_PKT_EXCEPTION),
    ("CHC_PKT_PROGRESS", sys::CHC_PKT_PROGRESS),
    ("CHC_PKT_PONG", sys::CHC_PKT_PONG),
    ("CHC_PKT_END_OF_STREAM", sys::CHC_PKT_END_OF_STREAM),
    ("CHC_PKT_PROFILE_INFO", sys::CHC_PKT_PROFILE_INFO),
    ("CHC_PKT_TOTALS", sys::CHC_PKT_TOTALS),
    ("CHC_PKT_EXTREMES", sys::CHC_PKT_EXTREMES),
    ("CHC_PKT_LOG", sys::CHC_PKT_LOG),
    ("CHC_PKT_TABLE_COLUMNS", sys::CHC_PKT_TABLE_COLUMNS),
    ("CHC_PKT_PROFILE_EVENTS", sys::CHC_PKT_PROFILE_EVENTS),
];

/// Packet kinds handled internally rather than returned as `PacketKind`.
const CLIENT_ONLY_PACKETS: &[&str] = &["CHC_PKT_HELLO"];

#[test]
fn every_type_kind_maps_to_a_variant() {
    for (name, value) in KINDS {
        let kind = Kind::from_raw(*value);
        assert!(kind.is_some(), "Kind has no variant for {name}");
        assert_eq!(kind.map(|k| k.code()), Some(*value), "{name}");
    }
}

#[test]
fn every_interval_unit_maps_to_a_variant() {
    for (name, value) in UNITS {
        // Zero marks a type without an interval unit
        if *value == 0 {
            continue;
        }
        let unit = IntervalUnit::from_raw(*value);
        assert!(unit.is_some(), "IntervalUnit has no variant for {name}");
        assert_eq!(unit.map(|u| u.code()), Some(*value), "{name}");
    }
    assert_eq!(IntervalUnit::from_raw(0), None);
}

#[test]
fn every_column_layout_maps_to_a_variant() {
    for (name, value) in LAYOUTS {
        let layout = ColumnLayout::from_raw(*value);
        assert!(layout.is_some(), "ColumnLayout has no variant for {name}");
        assert_eq!(layout.map(|l| l.code()), Some(*value), "{name}");
    }
    assert_eq!(ColumnLayout::from_raw(7), None);
}

#[test]
fn every_server_packet_kind_maps_to_a_variant() {
    for (name, value) in PACKETS {
        if CLIENT_ONLY_PACKETS.contains(name) {
            assert_eq!(PacketKind::from_raw(*value), None);
            continue;
        }
        let kind = PacketKind::from_raw(*value);
        assert!(kind.is_some(), "PacketKind has no variant for {name}");
        assert_eq!(kind.map(|k| k.code()), Some(*value), "{name}");
    }
}

/// Codes of one table are distinct, so that no variant hides another.
#[test]
fn header_enumerators_cover_the_generated_constants() {
    assert!(KINDS.iter().count() > 0);
    assert!(PACKETS.iter().count() > 0);
    for table in [KINDS, UNITS, LAYOUTS, PACKETS] {
        for (i, (a, x)) in table.iter().enumerate() {
            for (b, y) in &table[i + 1..] {
                assert_ne!(x, y, "{a} and {b} share a code");
            }
        }
    }
}

#[test]
fn unknown_discriminant_is_none() {
    assert_eq!(Kind::from_raw(i32::MAX), None);
    assert_eq!(Kind::from_raw(-1), None);
}

#[test]
fn error_codes_round_trip() {
    for code in -3..20 {
        assert_eq!(ErrorKind::from_code(code).code(), code);
    }
    assert_eq!(ErrorKind::from_code(sys::CHC_ERR_TYPE), ErrorKind::Type);
    assert_eq!(ErrorKind::from_code(sys::CHC_ERR_OOM), ErrorKind::Oom);
    assert_eq!(
        ErrorKind::from_code(sys::CHC_ERR_CANCELLED),
        ErrorKind::Cancelled
    );
    assert_eq!(ErrorKind::from_code(77), ErrorKind::Other(77));
    assert_eq!(ErrorKind::Other(-5).name(), "Other(-5)");
}

#[test]
fn compression_codes_differ() {
    assert_eq!(Compression::Uncompressed.code(), sys::CHC_COMP_NONE);
    assert_eq!(Compression::Lz4.code(), sys::CHC_COMP_LZ4);
    assert_eq!(Compression::Zstd.code(), sys::CHC_COMP_ZSTD);
    assert_eq!(Compression::default(), Compression::Uncompressed);
}
