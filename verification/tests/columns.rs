//! Decoded blocks: access to columns and their validation.

use clickhouse_c::block::finish_read;
use clickhouse_c::{sys, Block, BlockOpts, Column, ColumnLayout, Error, ErrorKind};

fn fixed<'a>(data: &'a [u8], elem_size: usize, n_rows: usize) -> sys::chc_column<'a> {
    sys::chc_column {
        layout: sys::CHC_COL_FIXED,
        n_rows,
        payload: sys::chc_column_payload::fixed(sys::chc_column_fixed {
            data: Some(data),
            elem_size,
        }),
    }
}

fn array<'a>(offsets: &'a [u64], values: &'a sys::chc_column<'a>) -> sys::chc_column<'a> {
    sys::chc_column {
        layout: sys::CHC_COL_ARRAY,
        n_rows: offsets.len(),
        payload: sys::chc_column_payload::array(sys::chc_column_array {
            offsets: Some(offsets),
            values: Some(values),
        }),
    }
}

fn low_cardinality<'a>(
    key_size: i32,
    keys: &'a [u8],
    n_rows: usize,
    dict: &'a sys::chc_column<'a>,
) -> sys::chc_column<'a> {
    sys::chc_column {
        layout: sys::CHC_COL_LOW_CARDINALITY,
        n_rows,
        payload: sys::chc_column_payload::lc(sys::chc_column_lc {
            key_size,
            keys: Some(keys),
            dict: Some(dict),
            dict_n: dict.n_rows,
        }),
    }
}

fn record<'a>(columns: &[&'a sys::chc_column<'a>]) -> sys::chc_block<'a> {
    sys::chc_block {
        n_rows: columns.first().map_or(0, |c| c.n_rows),
        columns: columns
            .iter()
            .map(|&c| sys::chc_block_entry {
                name: None,
                type_: None,
                column: Some(c),
            })
            .collect(),
        is_overflows: false,
        bucket_num: 3,
    }
}

fn block<'a>(columns: &[&'a sys::chc_column<'a>]) -> Block<'a> {
    let record = record(columns);
    assert!(record.is_well_formed());
    Block::from_raw(Some(record)).expect("a block")
}

fn column<'a>(c: &'a sys::chc_column<'a>) -> Column<'a> {
    block(&[c]).column(0).expect("column")
}

fn protocol_error(result: Result<(), Error>) {
    let err = result.expect_err("invalid");
    assert_eq!(err.kind, ErrorKind::Protocol);
}

#[test]
fn missing_block_gives_none() {
    assert!(Block::from_raw(None).is_none());
    let clean = sys::chc_err::zeroed();
    assert!(matches!(finish_read(sys::CHC_OK, &clean, None), Ok(None)));
    let values = fixed(&[1], 1, 1);
    let read = finish_read(sys::CHC_OK, &clean, Some(record(&[&values])));
    assert!(matches!(read, Ok(Some(b)) if b.n_rows() == 1 && b.bucket_num() == 3));
    let err = finish_read(sys::CHC_ERR_EOF, &clean, None).err().expect("cut");
    assert_eq!(err.kind, ErrorKind::Eof);
}

#[test]
fn columns_are_found_by_index() {
    let a = fixed(&[1, 2], 1, 2);
    let block = block(&[&a, &a]);
    assert_eq!(block.n_columns(), 2);
    assert!(block.column(1).is_some());
    assert!(block.column(2).is_none());
    assert!(block.column_name(0).is_none());
    assert!(block.column_type(0).is_none());
    assert!(block.column_type(9).is_none());
}

#[test]
fn parts_of_other_layouts_are_missing() {
    let a = fixed(&[1, 2, 3], 1, 2);
    let c = column(&a);
    assert_eq!(c.layout(), Some(ColumnLayout::Fixed));
    assert_eq!(c.n_rows(), 2);
    assert_eq!(c.fixed(), Some((1, &[1u8, 2][..])));
    assert!(c.string().is_none());
    assert!(c.null_map().is_none());
    assert!(c.nullable_inner().is_none());
    assert!(c.array_offsets().is_none());
    assert!(c.array_values().is_none());
    assert_eq!(c.tuple_arity(), 0);
    assert!(c.tuple_child(0).is_none());
    assert!(c.low_cardinality().is_none());
}

#[test]
fn unknown_layout_has_no_parts() {
    let odd = sys::chc_column {
        layout: 99,
        n_rows: 4,
        payload: sys::chc_column_payload::nothing,
    };
    let c = column(&odd);
    assert_eq!(c.layout(), None);
    assert!(c.fixed().is_none());
    assert!(c.validate().is_ok());
}

#[test]
fn null_pointers_give_none() {
    let no_data = sys::chc_column {
        layout: sys::CHC_COL_FIXED,
        n_rows: 4,
        payload: sys::chc_column_payload::fixed(sys::chc_column_fixed {
            data: None,
            elem_size: 4,
        }),
    };
    assert!(column(&no_data).fixed().is_none());
    let too_long = sys::chc_column {
        layout: sys::CHC_COL_FIXED,
        n_rows: usize::MAX,
        payload: sys::chc_column_payload::fixed(sys::chc_column_fixed {
            data: Some(&[]),
            elem_size: 2,
        }),
    };
    assert!(column(&too_long).fixed().is_none());
}

#[test]
fn string_data_ends_at_the_smaller_bound() {
    let make = |offsets: Option<&'static [u64]>, data: Option<&'static [u8]>, bytes, n_rows| {
        sys::chc_column {
            layout: sys::CHC_COL_STRING,
            n_rows,
            payload: sys::chc_column_payload::str_(sys::chc_column_str {
                data,
                offsets,
                bytes,
            }),
        }
    };
    let c = make(Some(&[2, 5]), Some(b"abcdefg"), 7, 2);
    assert_eq!(column(&c).string(), Some((&[2u64, 5][..], &b"abcde"[..])));
    let c = make(Some(&[2, 9]), Some(b"abcdefg"), 6, 2);
    assert_eq!(column(&c).string(), Some((&[2u64, 9][..], &b"abcdef"[..])));
    let c = make(Some(&[]), None, 0, 0);
    assert_eq!(column(&c).string(), Some((&[][..], &[][..])));
    let c = make(Some(&[1]), None, 0, 1);
    assert!(column(&c).string().is_none());
    let c = make(None, Some(b"a"), 1, 0);
    assert!(column(&c).string().is_none());
}

#[test]
fn array_offsets_are_validated() {
    let values = fixed(&[1, 2, 3], 1, 3);
    assert!(column(&array(&[1, 1, 3], &values)).validate().is_ok());
    // Offsets may leave elements unused
    assert!(column(&array(&[1, 2], &values)).validate().is_ok());
    protocol_error(column(&array(&[2, 1], &values)).validate());
    protocol_error(column(&array(&[1, 4], &values)).validate());
}

#[test]
fn keys_are_validated() {
    let dict = fixed(&[1, 2, 3], 1, 3);
    assert!(column(&low_cardinality(1, &[0, 2], 2, &dict)).validate().is_ok());
    protocol_error(column(&low_cardinality(1, &[0, 3], 2, &dict)).validate());
    let keys: Vec<u8> = [2u16, 256].iter().flat_map(|k| k.to_ne_bytes()).collect();
    protocol_error(column(&low_cardinality(2, &keys, 2, &dict)).validate());
    // A width that keys cannot have
    protocol_error(column(&low_cardinality(3, &[0, 0, 0], 1, &dict)).validate());
    // No view, nothing to check
    let odd = low_cardinality(0, &[], 2, &dict);
    assert!(column(&odd).low_cardinality().is_none());
    assert!(column(&odd).validate().is_ok());
}

#[test]
fn nested_columns_are_validated() {
    let values = fixed(&[1, 2, 3], 1, 3);
    let bad = array(&[2, 1], &values);
    let good = array(&[1, 2], &values);

    let nullable = |inner| sys::chc_column {
        layout: sys::CHC_COL_NULLABLE,
        n_rows: 2,
        payload: sys::chc_column_payload::nullable(sys::chc_column_nullable {
            null_map: Some(&[0, 0]),
            inner: Some(inner),
        }),
    };
    protocol_error(column(&nullable(&bad)).validate());
    assert!(column(&nullable(&good)).validate().is_ok());

    let children = vec![Some(&good), None, Some(&bad)];
    let tuple = |arity| sys::chc_column {
        layout: sys::CHC_COL_TUPLE,
        n_rows: 2,
        payload: sys::chc_column_payload::tuple(sys::chc_column_tuple {
            children: Some(&children),
            arity,
        }),
    };
    protocol_error(column(&tuple(3)).validate());
    assert!(column(&tuple(2)).validate().is_ok());
    assert!(column(&tuple(2)).tuple_child(1).is_none());
    assert!(column(&tuple(2)).tuple_child(2).is_none());

    protocol_error(column(&array(&[2], &bad)).validate());
    protocol_error(column(&low_cardinality(1, &[0], 1, &bad)).validate());

    protocol_error(block(&[&good, &bad]).validate());
    assert!(block(&[&good, &values]).validate().is_ok());
}

#[test]
fn ill_formed_records_are_recognised() {
    let short = fixed(&[1, 2, 3], 4, 1);
    assert!(!record(&[&short]).is_well_formed());
    let mixed = sys::chc_column {
        layout: sys::CHC_COL_STRING,
        ..fixed(&[1], 1, 1)
    };
    assert!(!record(&[&mixed]).is_well_formed());
    let values = fixed(&[1], 1, 1);
    let mut few = array(&[1], &values);
    few.n_rows = 2;
    assert!(!record(&[&few]).is_well_formed());
    let nested = array(&[1], &short);
    assert!(!record(&[&nested]).is_well_formed());
    let keys = low_cardinality(4, &[0, 0], 1, &values);
    assert!(!record(&[&keys]).is_well_formed());
    let children = vec![Some(&short)];
    let tuple = sys::chc_column {
        layout: sys::CHC_COL_TUPLE,
        n_rows: 1,
        payload: sys::chc_column_payload::tuple(sys::chc_column_tuple {
            children: Some(&children),
            arity: 1,
        }),
    };
    assert!(!record(&[&tuple]).is_well_formed());
}

#[test]
fn block_options_are_copied() {
    assert_eq!(
        BlockOpts::default().to_raw(),
        sys::chc_block_opts::zeroed()
    );
    let raw = BlockOpts {
        has_block_info: true,
        has_custom_serialization: false,
        read_buffer_bytes: 77,
    }
    .to_raw();
    assert!(raw.has_block_info && !raw.has_custom_serialization);
    assert_eq!(raw.read_buffer_bytes, 77);
}
