//! Column and block construction.

use clickhouse_c::{sys, Block, BlockBuilder, ColumnBuilder, ErrorKind, TypeAst, TypeRef};

fn type_of(kind: i32, elem_size: usize) -> sys::chc_type {
    sys::chc_type {
        kind,
        children: Vec::new(),
        fixed_size: 0,
        elem_size,
        decimal_precision: 0,
        decimal_scale: 0,
        datetime64_scale: 0,
        qbit_dimension: 0,
        qbit_element_size: 0,
        timezone: None,
        name: None,
        enum_entries: Vec::new(),
        field_names: Vec::new(),
        text: Vec::new(),
    }
}

fn uint32() -> TypeAst {
    TypeAst::finish_parse(
        sys::CHC_OK,
        &sys::chc_err::zeroed(),
        Some(type_of(sys::CHC_UINT32, 4)),
    )
    .ok()
    .expect("UInt32")
}

/// Block that shows a built column the way a decoded one is shown.
fn shown<'a>(ty: &'a sys::chc_type, column: &'a sys::chc_column<'a>) -> Block<'a> {
    let record = sys::chc_block {
        n_rows: column.n_rows,
        columns: vec![sys::chc_block_entry {
            name: Some(&b"x"[..]),
            type_: Some(ty),
            column: Some(column),
        }],
        is_overflows: false,
        bucket_num: -1,
    };
    assert!(record.is_well_formed());
    Block::from_raw(Some(record)).expect("a block")
}

fn message<T>(result: Result<T, clickhouse_c::Error>) -> String {
    let err = result.err().expect("refused");
    assert_eq!(err.kind, ErrorKind::Usage);
    assert_eq!(err.server_code, 0);
    err.message
}

#[test]
fn builder_rejects_inconsistent_slabs() {
    let uint32 = uint32();
    let elem = uint32.view().elem_size();

    let err = ColumnBuilder::fixed(&[], elem, 1)
        .map(drop)
        .expect_err("short fixed data");
    assert_eq!(err.kind, ErrorKind::Usage);

    let err = ColumnBuilder::string(&[2, 1], &[0], 2)
        .map(drop)
        .expect_err("decreasing offsets");
    assert_eq!(err.kind, ErrorKind::Usage);

    let leaf = ColumnBuilder::fixed(&[], elem, 0).expect("empty leaf for array");
    let err = leaf
        .array(&[], 1)
        .map(drop)
        .expect_err("short array offsets");
    assert_eq!(err.kind, ErrorKind::Usage);
}

#[test]
fn builder_accepts_oversized_slabs() {
    let uint32 = uint32();

    // Fixed column ignores bytes after required prefix
    let fixed = [1u8, 0, 0, 0, 0xde, 0xad, 0xbe, 0xef];
    ColumnBuilder::fixed(&fixed, uint32.view().elem_size(), 1).expect("fixed slab with slack");

    // String column ignores data after final offset
    ColumnBuilder::string(&[1, 3], b"abcdefg", 2).expect("string slab with slack");
}

#[test]
fn fixed_messages() {
    assert_eq!(
        message(ColumnBuilder::fixed(&[], 0, 0)),
        "fixed column: elem_size must be nonzero"
    );
    assert_eq!(
        message(ColumnBuilder::fixed(&[1, 2, 3], 4, 1)),
        "fixed data too short: got 3, need at least 4"
    );
    let text = message(ColumnBuilder::fixed(&[], 3, usize::MAX));
    assert_eq!(
        text,
        format!("fixed data length overflow: {} * 3", usize::MAX)
    );
}

#[test]
fn string_messages() {
    assert_eq!(
        message(ColumnBuilder::string(&[1], b"a", 2)),
        "string offsets length mismatch: got 1, expected 2"
    );
    assert_eq!(
        message(ColumnBuilder::string(&[4, 9, 3, 1], b"", 4)),
        "string offsets not monotonic at row 2: 3 < 9"
    );
    assert_eq!(
        message(ColumnBuilder::string(&[1, 5], b"abcd", 2)),
        "string data too short: got 4, need at least 5"
    );
}

#[test]
fn composite_messages() {
    let leaf = ColumnBuilder::fixed(&[1, 2, 3], 1, 3).expect("leaf");
    assert_eq!(
        message(leaf.nullable(&[0, 1])),
        "nullable null map length mismatch: got 2, expected 3"
    );
    assert_eq!(
        message(leaf.array(&[1, 2], 2)),
        "array values length mismatch: got 3, expected 2"
    );
    assert_eq!(
        message(leaf.array(&[3, 1], 2)),
        "array offsets not monotonic at row 1: 1 < 3"
    );
    assert_eq!(
        message(leaf.low_cardinality(3, &[], 0)),
        "LowCardinality key size must be 1, 2, 4, or 8, got 3"
    );
    assert_eq!(
        message(leaf.low_cardinality(-1, &[], 0)),
        "LowCardinality key size must be 1, 2, 4, or 8, got -1"
    );
    assert_eq!(
        message(leaf.low_cardinality(2, &[0, 0, 0], 2)),
        "LowCardinality keys length mismatch: got 3, expected 4"
    );
    assert_eq!(
        message(leaf.low_cardinality(1, &[0, 2, 3, 9], 4)),
        "LowCardinality key out of range at row 2: 3 >= 3"
    );
}

#[test]
fn keys_are_read_in_host_byte_order() {
    let dict = ColumnBuilder::fixed(&[0; 300], 1, 300).expect("dict");
    let keys: Vec<u8> = [0u16, 299, 256].iter().flat_map(|k| k.to_ne_bytes()).collect();
    assert!(dict.low_cardinality(2, &keys, 3).is_ok());
    let keys: Vec<u8> = [0u16, 300].iter().flat_map(|k| k.to_ne_bytes()).collect();
    assert_eq!(
        message(dict.low_cardinality(2, &keys, 2)),
        "LowCardinality key out of range at row 1: 300 >= 300"
    );
    let keys: Vec<u8> = [1u32, 70_000].iter().flat_map(|k| k.to_ne_bytes()).collect();
    assert_eq!(
        message(dict.low_cardinality(4, &keys, 2)),
        "LowCardinality key out of range at row 1: 70000 >= 300"
    );
    let keys: Vec<u8> = [299u64, 5_000_000_000]
        .iter()
        .flat_map(|k| k.to_ne_bytes())
        .collect();
    assert_eq!(
        message(dict.low_cardinality(8, &keys, 2)),
        "LowCardinality key out of range at row 1: 5000000000 >= 300"
    );
}

#[test]
fn tuple_messages() {
    let none: [ColumnBuilder<'_>; 0] = [];
    assert_eq!(
        message(ColumnBuilder::tuple(&none, &mut Vec::new())),
        "tuple column: needs at least one child"
    );
    let children = [
        ColumnBuilder::fixed(&[1, 2], 1, 2).expect("a"),
        ColumnBuilder::fixed(&[1, 2, 3], 1, 3).expect("b"),
    ];
    assert_eq!(
        message(ColumnBuilder::tuple(&children, &mut vec![None])),
        "tuple ptr scratch length mismatch: 1 vs 2 children"
    );
    assert_eq!(
        message(ColumnBuilder::tuple(&children, &mut vec![None, None])),
        "tuple child 1 row count mismatch: 3 vs 2"
    );
}

#[test]
fn built_columns_read_back() {
    let values: Vec<u8> = [10u32, 0, 30, 40]
        .iter()
        .flat_map(|v| v.to_le_bytes())
        .collect();
    let null_map = [0u8, 1, 0, 0];
    let array_offsets = [2u64, 2, 4];
    let dict_offsets = [5u64, 9];
    let keys = [0u8, 1, 0];

    let leaf = ColumnBuilder::fixed(&values, 4, 4).expect("leaf");
    let nullable = leaf.nullable(&null_map).expect("nullable");
    let array = nullable.array(&array_offsets, 3).expect("array");
    let dict = ColumnBuilder::string(&dict_offsets, b"alphabeta", 2).expect("dict");
    let lc = dict.low_cardinality(1, &keys, 3).expect("lc");
    assert_eq!((array.n_rows(), lc.n_rows()), (3, 3));

    let ty = type_of(sys::CHC_ARRAY, 0);
    let block = shown(&ty, array.as_raw());
    assert!(block.validate().is_ok());
    let nums = block.column(0).expect("column");
    assert_eq!(nums.array_offsets(), Some(&array_offsets[..]));
    let inner = nums.array_values().expect("values");
    assert_eq!(inner.null_map(), Some(&null_map[..]));
    assert_eq!(
        inner.nullable_inner().and_then(|c| c.fixed()),
        Some((4, &values[..]))
    );

    let block = shown(&ty, lc.as_raw());
    assert!(block.validate().is_ok());
    let view = block
        .column(0)
        .and_then(|c| c.low_cardinality())
        .expect("view");
    assert_eq!(view.key_size, 1);
    assert_eq!(view.keys, &keys[..]);
    assert_eq!(
        view.dict.string(),
        Some((&dict_offsets[..], &b"alphabeta"[..]))
    );
}

#[test]
fn built_tuple_reads_back() {
    let children = [
        ColumnBuilder::fixed(&[1, 2], 1, 2).expect("a"),
        ColumnBuilder::string(&[1, 3], b"xyzzz", 2).expect("b"),
    ];
    let mut ptrs = vec![None, None];
    let tuple = ColumnBuilder::tuple(&children, &mut ptrs).expect("tuple");
    assert_eq!(tuple.n_rows(), 2);
    let ty = type_of(sys::CHC_TUPLE, 0);
    let block = shown(&ty, tuple.as_raw());
    assert!(block.validate().is_ok());
    let column = block.column(0).expect("column");
    assert_eq!(column.tuple_arity(), 2);
    assert_eq!(
        column.tuple_child(0).and_then(|c| c.fixed()),
        Some((1, &[1u8, 2][..]))
    );
    assert_eq!(
        column.tuple_child(1).and_then(|c| c.string()),
        Some((&[1u64, 3][..], &b"xyz"[..]))
    );
    assert!(column.tuple_child(2).is_none());
}

#[test]
fn slack_is_not_read_back() {
    let ty = type_of(sys::CHC_STRING, 0);
    let col = ColumnBuilder::string(&[1, 3], b"abcdefg", 2).expect("slack");
    let block = shown(&ty, col.as_raw());
    let (offsets, data) = block.column(0).and_then(|c| c.string()).expect("string");
    assert_eq!(offsets, &[1, 3]);
    assert_eq!(data, b"abc");
}

#[test]
fn block_keeps_one_row_count() {
    let ty = uint32();
    let two = ColumnBuilder::fixed(&[0; 8], 4, 2).expect("two");
    let three = ColumnBuilder::fixed(&[0; 12], 4, 3).expect("three");
    let mut block = BlockBuilder::new();
    let (empty, zeroed) = (block.as_raw(), sys::chc_block_builder::zeroed());
    assert_eq!((empty.n_cols, empty.n_rows), (zeroed.n_cols, zeroed.n_rows));
    assert!(empty.cols.is_empty() && zeroed.cols.is_empty());
    block.append("a", ty.view(), &two).expect("first sets rows");
    let err = block.append("b", ty.view(), &three).expect_err("other rows");
    assert_eq!(err.kind, ErrorKind::Usage);
    assert_eq!(err.message, "block_builder: row count mismatch (2 vs 3)");
    assert_eq!(block.columns().len(), 1);
    block.append("c", ty.view(), &two).expect("same rows");

    let names: Vec<&str> = block.columns().iter().map(|c| c.name).collect();
    assert_eq!(names, ["a", "c"]);
    assert!(block.columns().iter().all(|c| c.name_len == 1));
    let raw = block.as_raw();
    assert_eq!((raw.n_cols, raw.n_rows), (2, 2));
    assert!(core::ptr::eq(raw.cols, block.columns()));
    assert_eq!(raw.cols[1].name, "c");
}

#[test]
fn pushed_column_is_stored_as_given() {
    let ty = type_of(sys::CHC_UINT8, 1);
    let col = ColumnBuilder::fixed(&[1, 2, 3], 1, 3).expect("col");
    let mut block = BlockBuilder::new();
    block
        .push("gr\u{fc}n", TypeRef { raw: &ty }, col.as_raw(), 3)
        .expect("first column");
    let entry = &block.columns()[0];
    assert_eq!((entry.name, entry.name_len), ("gr\u{fc}n", 5));
    assert!(core::ptr::eq(entry.col, col.as_raw()));
    assert!(core::ptr::eq(entry.type_, &ty));
    assert_eq!(block.as_raw().n_rows, 3);
}

#[test]
fn decoded_column_can_be_appended() {
    let ty = type_of(sys::CHC_UINT8, 1);
    let col = ColumnBuilder::fixed(&[7, 8], 1, 2).expect("col");
    let decoded = shown(&ty, col.as_raw());
    let mut out = BlockBuilder::default();
    out.append_column("payload", TypeRef { raw: &ty }, decoded.column(0).expect("column"))
        .expect("append");
    assert_eq!(out.columns()[0].col.n_rows, 2);
    assert_eq!(out.columns()[0].type_.kind, sys::CHC_UINT8);

    let longer = ColumnBuilder::fixed(&[0; 5], 1, 5).expect("longer");
    assert!(out.append("x", TypeRef { raw: &ty }, &longer).is_err());
}

#[test]
fn empty_columns_are_accepted() {
    let leaf = ColumnBuilder::fixed(&[], 8, 0).expect("no rows");
    let nullable = leaf.nullable(&[]).expect("no rows");
    let array = nullable.array(&[], 0).expect("no rows");
    let text = ColumnBuilder::string(&[], b"", 0).expect("no rows");
    let lc = text.low_cardinality(8, &[], 0).expect("no rows");
    assert_eq!(array.n_rows() + lc.n_rows(), 0);
}
