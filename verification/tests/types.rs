//! Type inspection.

use clickhouse_c::{sys, ErrorKind, Kind, TypeAst};

fn plain(kind: i32) -> sys::chc_type {
    sys::chc_type {
        kind,
        children: Vec::new(),
        fixed_size: 5,
        elem_size: 0,
        decimal_precision: 18,
        decimal_scale: 4,
        datetime64_scale: 3,
        qbit_dimension: 16,
        qbit_element_size: 32,
        timezone: None,
        name: None,
        enum_entries: Vec::new(),
        field_names: Vec::new(),
        text: Vec::new(),
    }
}

fn parsed(raw: sys::chc_type) -> TypeAst {
    TypeAst::finish_parse(sys::CHC_OK, &sys::chc_err::zeroed(), Some(raw))
        .ok()
        .expect("parsed")
}

#[test]
fn qbit_metadata() {
    let ty = parsed(sys::chc_type {
        children: vec![Some(plain(sys::CHC_FLOAT32))],
        text: b"QBit(Float32, 16)".to_vec(),
        ..plain(sys::CHC_QBIT)
    });
    let view = ty.view();
    assert_eq!(view.kind(), Some(Kind::QBit));
    assert_eq!(view.qbit_dimension(), 16);
    assert_eq!(view.qbit_element_size(), 32);
    assert_eq!(view.format(), "QBit(Float32, 16)");
    assert_eq!(view.child(0).and_then(|c| c.kind()), Some(Kind::Float32));
}

#[test]
fn qbit_accessors_are_zero_off_qbit() {
    let ty = parsed(sys::chc_type {
        children: vec![Some(plain(sys::CHC_UINT32))],
        ..plain(sys::CHC_ARRAY)
    });
    assert_eq!(ty.view().qbit_dimension(), 0);
    assert_eq!(ty.view().qbit_element_size(), 0);
}

#[test]
fn missing_child_keeps_its_place() {
    let ty = parsed(sys::chc_type {
        children: vec![None, Some(plain(sys::CHC_UINT8))],
        ..plain(sys::CHC_TUPLE)
    });
    let view = ty.view();
    assert_eq!(view.n_children(), 2);
    assert!(view.child(0).is_none());
    assert_eq!(view.child(1).and_then(|c| c.kind()), Some(Kind::UInt8));
    assert!(view.child(2).is_none());
}

#[test]
fn accessors_are_zero_off_their_kinds() {
    let ty = parsed(plain(sys::CHC_UINT8));
    let view = ty.view();
    assert_eq!(view.fixed_size(), 0);
    assert_eq!(view.decimal_precision(), 0);
    assert_eq!(view.decimal_scale(), 0);
    assert_eq!(view.datetime64_scale(), 0);
    assert_eq!(view.enum_count(), 0);
    assert_eq!(view.n_children(), 0);
    assert!(view.child(0).is_none());
    assert!(view.timezone().is_none());
    assert!(view.name().is_none());
    assert!(view.tuple_field_name(0).is_none());
    assert_eq!(view.format(), "");
}

#[test]
fn accessors_read_their_kinds() {
    assert_eq!(parsed(plain(sys::CHC_FIXED_STRING)).view().fixed_size(), 5);
    for kind in [
        sys::CHC_DECIMAL32,
        sys::CHC_DECIMAL64,
        sys::CHC_DECIMAL128,
        sys::CHC_DECIMAL256,
    ] {
        let ty = parsed(plain(kind));
        assert_eq!(ty.view().decimal_precision(), 18);
        assert_eq!(ty.view().decimal_scale(), 4);
    }
    for kind in [sys::CHC_DATETIME64, sys::CHC_TIME64] {
        assert_eq!(parsed(plain(kind)).view().datetime64_scale(), 3);
    }
    assert_eq!(parsed(plain(4711)).view().kind(), None);
}

#[test]
fn names_are_handed_out() {
    let ty = parsed(sys::chc_type {
        enum_entries: vec![
            sys::chc_enum_entry {
                name: Some(b"on".to_vec()),
                value: 1,
            },
            sys::chc_enum_entry {
                name: None,
                value: 2,
            },
        ],
        timezone: Some(b"UTC".to_vec()),
        name: Some(b"Enum8".to_vec()),
        field_names: vec![Some(b"id".to_vec()), None],
        elem_size: 1,
        ..plain(sys::CHC_ENUM8)
    });
    let view = ty.view();
    assert_eq!(view.enum_count(), 2);
    assert_eq!(view.enum_at(0), Some((&b"on"[..], 1)));
    assert_eq!(view.enum_at(1), None);
    assert_eq!(view.enum_at(2), None);
    assert_eq!(view.timezone(), Some(&b"UTC"[..]));
    assert_eq!(view.name(), Some(&b"Enum8"[..]));
    assert_eq!(view.tuple_field_name(0), Some(&b"id"[..]));
    assert_eq!(view.tuple_field_name(1), None);
    assert_eq!(view.tuple_field_name(2), None);
    assert_eq!(view.elem_size(), 1);
}

#[test]
fn formatted_text_is_decoded() {
    let ty = parsed(sys::chc_type {
        text: b"Enum8('\xFF' = 1)".to_vec(),
        ..plain(sys::CHC_ENUM8)
    });
    assert_eq!(ty.view().format(), "Enum8('\u{FFFD}' = 1)");
}

#[test]
fn failed_parse_is_an_error() {
    let mut err = sys::chc_err::zeroed();
    err.msg[..7].copy_from_slice(b"bad ref");
    let e = TypeAst::finish_parse(sys::CHC_ERR_TYPE, &err, None)
        .err()
        .expect("refused");
    assert_eq!(e.kind, ErrorKind::Type);
    assert_eq!(e.message, "bad ref");
}
