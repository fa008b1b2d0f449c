//! Columns: their storage, access to it, and its validity.

use vstd::prelude::*;
use vstd::endian::*;
use vstd::slice::slice_subrange;

use crate::error;
use crate::error::{Error, ErrorKind};
use crate::sys;
use crate::text;

verus! {

/// Number that `bytes` hold in the byte order `order`.
pub open spec fn bytes_value(bytes: Seq<u8>, order: Endian) -> nat
    decreases bytes.len(),
{
    if bytes.len() == 0 {
        0
    } else {
        match order {
            Endian::Little => bytes[0] as nat + 256 * bytes_value(bytes.drop_first(), order),
            Endian::Big => 256 * bytes_value(bytes.drop_last(), order) + bytes.last() as nat,
        }
    }
}

/// Key of row `row` among `keys` of `size` bytes each, in host byte order.
pub open spec fn key_at(keys: Seq<u8>, size: nat, row: nat) -> nat {
    bytes_value(keys.subrange((row * size) as int, (row * size + size) as int), endianness())
}

/// Whether `size` is a width that keys can have.
pub open spec fn is_key_size(size: int) -> bool {
    size == 1 || size == 2 || size == 4 || size == 8
}

/// Whether no offset is below the one before it.
pub open spec fn nondecreasing(offsets: Seq<u64>) -> bool {
    forall|i: int, j: int| 0 <= i <= j < offsets.len() ==> offsets[i] <= offsets[j]
}

/// Last offset, or zero when there is none.
pub open spec fn final_offset(offsets: Seq<u64>) -> u64 {
    if offsets.len() == 0 {
        0
    } else {
        offsets.last()
    }
}

/// `u16::from_ne_bytes`.
///
/// Claims that the result is the number that the two bytes hold in the byte
/// order of the host.
#[verifier::external_body]
fn u16_from_ne_bytes(bytes: [u8; 2]) -> (value: u16)
    ensures
        value == bytes_value(bytes@, endianness()),
{
    u16::from_ne_bytes(bytes)
}

/// `u32::from_ne_bytes`.
///
/// Claims that the result is the number that the four bytes hold in the byte
/// order of the host.
#[verifier::external_body]
fn u32_from_ne_bytes(bytes: [u8; 4]) -> (value: u32)
    ensures
        value == bytes_value(bytes@, endianness()),
{
    u32::from_ne_bytes(bytes)
}

/// `u64::from_ne_bytes`.
///
/// Claims that the result is the number that the eight bytes hold in the byte
/// order of the host.
#[verifier::external_body]
fn u64_from_ne_bytes(bytes: [u8; 8]) -> (value: u64)
    ensures
        value == bytes_value(bytes@, endianness()),
{
    u64::from_ne_bytes(bytes)
}

/// Reads the key of row `row`.
pub fn read_key(keys: &[u8], size: usize, row: usize) -> (key: u64)
    requires
        is_key_size(size as int),
        row * size + size <= keys.len(),
    ensures
        key == key_at(keys@, size as nat, row as nat),
{
    proof {
        assert(0 <= row * size <= usize::MAX) by (nonlinear_arith)
            requires
                row * size + size <= keys.len(),
                row >= 0,
                size >= 0,
        ;
    }
    let at: usize = row * size;
    let ghost slot = keys@.subrange(at as int, at + size);
    if size == 1 {
        let key: u8 = keys[at];
        proof {
            assert(slot =~= seq![key]);
            assert(slot.drop_first() =~= Seq::empty());
            assert(slot.drop_last() =~= Seq::empty());
            reveal_with_fuel(bytes_value, 2);
        }
        key as u64
    } else if size == 2 {
        let bytes = [keys[at], keys[at + 1]];
        assert(bytes@ =~= slot);
        u16_from_ne_bytes(bytes) as u64
    } else if size == 4 {
        let bytes = [keys[at], keys[at + 1], keys[at + 2], keys[at + 3]];
        assert(bytes@ =~= slot);
        u32_from_ne_bytes(bytes) as u64
    } else {
        let bytes = [
            keys[at],
            keys[at + 1],
            keys[at + 2],
            keys[at + 3],
            keys[at + 4],
            keys[at + 5],
            keys[at + 6],
            keys[at + 7],
        ];
        assert(bytes@ =~= slot);
        u64_from_ne_bytes(bytes)
    }
}

/// Whether each of `rows` keys of `size` bytes is below `bound`.
pub open spec fn keys_below(keys: Seq<u8>, size: nat, rows: nat, bound: nat) -> bool {
    forall|row: nat| row < rows ==> #[trigger] key_at(keys, size, row) < bound
}

/// Storage layout of a decoded column.
///
/// Several ClickHouse types can share a layout. Use
/// [`Block::column_type`](crate::Block::column_type) to determine logical type.
#[derive(Clone, Copy, Debug, PartialEq, Eq, Structural)]
pub enum ColumnLayout {
    /// Fixed-width values stored as contiguous little-endian bytes.
    Fixed,
    /// Offsets and byte data used by `String` and string-encoded JSON types.
    String,
    /// Null map and dense inner column used by `Nullable(T)`.
    Nullable,
    /// Offsets and element column used by `Array(T)`, and `Map(K, V)` as
    /// `Array(Tuple(K, V))`.
    Array,
    /// Parallel child columns used by tuples, nested values, geographic
    /// types, and QBit values.
    Tuple,
    /// Keys and dictionary column used by `LowCardinality(T)`.
    LowCardinality,
    /// Empty storage used by `Nothing` and `Nullable(Nothing)` inner columns.
    Nothing,
}

impl ColumnLayout {
    /// Code of a layout.
    pub open spec fn spec_code(self) -> sys::chc_col_kind {
        match self {
            ColumnLayout::Fixed => sys::CHC_COL_FIXED,
            ColumnLayout::String => sys::CHC_COL_STRING,
            ColumnLayout::Nullable => sys::CHC_COL_NULLABLE,
            ColumnLayout::Array => sys::CHC_COL_ARRAY,
            ColumnLayout::Tuple => sys::CHC_COL_TUPLE,
            ColumnLayout::LowCardinality => sys::CHC_COL_LOW_CARDINALITY,
            ColumnLayout::Nothing => sys::CHC_COL_NOTHING,
        }
    }

    /// Layout of a code, where there is one.
    pub open spec fn spec_from_raw(k: sys::chc_col_kind) -> Option<ColumnLayout> {
        if k == sys::CHC_COL_FIXED {
            Some(ColumnLayout::Fixed)
        } else if k == sys::CHC_COL_STRING {
            Some(ColumnLayout::String)
        } else if k == sys::CHC_COL_NULLABLE {
            Some(ColumnLayout::Nullable)
        } else if k == sys::CHC_COL_ARRAY {
            Some(ColumnLayout::Array)
        } else if k == sys::CHC_COL_TUPLE {
            Some(ColumnLayout::Tuple)
        } else if k == sys::CHC_COL_LOW_CARDINALITY {
            Some(ColumnLayout::LowCardinality)
        } else if k == sys::CHC_COL_NOTHING {
            Some(ColumnLayout::Nothing)
        } else {
            None
        }
    }

    /// Layout of code `k`. A code without a layout gives `None`.
    pub fn from_raw(k: sys::chc_col_kind) -> (layout: Option<Self>)
        ensures
            layout == ColumnLayout::spec_from_raw(k),
    {
        match k {
            sys::CHC_COL_FIXED => Some(ColumnLayout::Fixed),
            sys::CHC_COL_STRING => Some(ColumnLayout::String),
            sys::CHC_COL_NULLABLE => Some(ColumnLayout::Nullable),
            sys::CHC_COL_ARRAY => Some(ColumnLayout::Array),
            sys::CHC_COL_TUPLE => Some(ColumnLayout::Tuple),
            sys::CHC_COL_LOW_CARDINALITY => Some(ColumnLayout::LowCardinality),
            sys::CHC_COL_NOTHING => Some(ColumnLayout::Nothing),
            _ => None,
        }
    }

    /// Code of this layout.
    pub fn code(self) -> (code: sys::chc_col_kind)
        ensures
            code == self.spec_code(),
    {
        match self {
            ColumnLayout::Fixed => sys::CHC_COL_FIXED,
            ColumnLayout::String => sys::CHC_COL_STRING,
            ColumnLayout::Nullable => sys::CHC_COL_NULLABLE,
            ColumnLayout::Array => sys::CHC_COL_ARRAY,
            ColumnLayout::Tuple => sys::CHC_COL_TUPLE,
            ColumnLayout::LowCardinality => sys::CHC_COL_LOW_CARDINALITY,
            ColumnLayout::Nothing => sys::CHC_COL_NOTHING,
        }
    }
}

/// A layout survives the way to its code and back.
pub proof fn law_layout_code_round_trip(layout: ColumnLayout)
    ensures
        ColumnLayout::spec_from_raw(layout.spec_code()) == Some(layout),
{
}

/// A code that names a layout is the code of that layout, and no layout has a
/// code that names none.
pub proof fn law_code_layout_round_trip(k: sys::chc_col_kind, layout: ColumnLayout)
    ensures
        ColumnLayout::spec_from_raw(k) == Some(layout) <==> layout.spec_code() == k,
{
}

impl<'a> sys::chc_column<'a> {
    /// Whether the storage is the one that the layout calls for, and each
    /// slice is as long as the row count needs.
    pub open spec fn wf(&self) -> bool
        decreases self,
    {
        match self.payload {
            sys::chc_column_payload::fixed(p) => {
                &&& self.layout == sys::CHC_COL_FIXED
                &&& p.data matches Some(data) ==> self.n_rows * p.elem_size <= usize::MAX
                    ==> self.n_rows * p.elem_size <= data.len()
            },
            sys::chc_column_payload::str_(p) => {
                &&& self.layout == sys::CHC_COL_STRING
                &&& p.offsets matches Some(offsets) ==> self.n_rows <= offsets.len()
                &&& p.data matches Some(data) ==> p.bytes <= data.len()
            },
            sys::chc_column_payload::nullable(p) => {
                &&& self.layout == sys::CHC_COL_NULLABLE
                &&& p.null_map matches Some(map) ==> self.n_rows <= map.len()
                &&& p.inner matches Some(inner) ==> inner.wf()
            },
            sys::chc_column_payload::array(p) => {
                &&& self.layout == sys::CHC_COL_ARRAY
                &&& p.offsets matches Some(offsets) ==> self.n_rows <= offsets.len()
                &&& p.values matches Some(values) ==> values.wf()
            },
            sys::chc_column_payload::tuple(p) => {
                &&& self.layout == sys::CHC_COL_TUPLE
                &&& p.children matches Some(children) ==> {
                    &&& p.arity <= children@.len()
                    &&& forall|i: int|
                        0 <= i < p.arity ==> (#[trigger] children@[i] matches Some(child)
                            ==> child.wf())
                }
            },
            sys::chc_column_payload::lc(p) => {
                &&& self.layout == sys::CHC_COL_LOW_CARDINALITY
                &&& p.keys matches Some(keys) ==> p.key_size > 0 ==> self.n_rows * p.key_size
                    <= usize::MAX ==> self.n_rows * p.key_size <= keys.len()
                &&& p.dict matches Some(dict) ==> dict.wf()
            },
            sys::chc_column_payload::nothing => {
                &&& self.layout != sys::CHC_COL_FIXED
                &&& self.layout != sys::CHC_COL_STRING
                &&& self.layout != sys::CHC_COL_NULLABLE
                &&& self.layout != sys::CHC_COL_ARRAY
                &&& self.layout != sys::CHC_COL_TUPLE
                &&& self.layout != sys::CHC_COL_LOW_CARDINALITY
            },
        }
    }

    /// Element width and data of a fixed-width column.
    pub open spec fn spec_fixed(&self) -> Option<(usize, Seq<u8>)> {
        match self.payload {
            sys::chc_column_payload::fixed(p) => match p.data {
                Some(data) if self.n_rows * p.elem_size <= usize::MAX => Some(
                    (p.elem_size, data@.take(self.n_rows * p.elem_size)),
                ),
                _ => None,
            },
            _ => None,
        }
    }

    /// Offsets and bytes of a string column. The bytes end at the final
    /// offset, or at the recorded size where that is smaller.
    pub open spec fn spec_string(&self) -> Option<(Seq<u64>, Seq<u8>)> {
        match self.payload {
            sys::chc_column_payload::str_(p) => match (p.offsets, p.data) {
                (Some(offsets), Some(data)) => {
                    let ends = offsets@.take(self.n_rows as int);
                    let claimed = final_offset(ends) as usize;
                    let size = if claimed <= p.bytes { claimed } else { p.bytes };
                    Some((ends, data@.take(size as int)))
                },
                (Some(_), None) if self.n_rows == 0 => Some((Seq::empty(), Seq::empty())),
                _ => None,
            },
            _ => None,
        }
    }

    /// Null map of a nullable column.
    pub open spec fn spec_null_map(&self) -> Option<Seq<u8>> {
        match self.payload {
            sys::chc_column_payload::nullable(p) => match p.null_map {
                Some(map) => Some(map@.take(self.n_rows as int)),
                None => None,
            },
            _ => None,
        }
    }

    /// Inner column of a nullable column.
    pub open spec fn spec_nullable_inner(&self) -> Option<sys::chc_column<'a>> {
        match self.payload {
            sys::chc_column_payload::nullable(p) => match p.inner {
                Some(inner) => Some(*inner),
                None => None,
            },
            _ => None,
        }
    }

    /// Offsets of an array column.
    pub open spec fn spec_array_offsets(&self) -> Option<Seq<u64>> {
        match self.payload {
            sys::chc_column_payload::array(p) => match p.offsets {
                Some(offsets) => Some(offsets@.take(self.n_rows as int)),
                None => None,
            },
            _ => None,
        }
    }

    /// Element column of an array column.
    pub open spec fn spec_array_values(&self) -> Option<sys::chc_column<'a>> {
        match self.payload {
            sys::chc_column_payload::array(p) => match p.values {
                Some(values) => Some(*values),
                None => None,
            },
            _ => None,
        }
    }

    /// Number of children of a tuple column, and zero for another column.
    pub open spec fn spec_tuple_arity(&self) -> usize {
        match self.payload {
            sys::chc_column_payload::tuple(p) => p.arity,
            _ => 0,
        }
    }

    /// Child `i` of a tuple column.
    pub open spec fn spec_tuple_child(&self, i: int) -> Option<sys::chc_column<'a>> {
        match self.payload {
            sys::chc_column_payload::tuple(p) => match p.children {
                Some(children) if 0 <= i < p.arity => match children@[i] {
                    Some(child) => Some(*child),
                    None => None,
                },
                _ => None,
            },
            _ => None,
        }
    }

    /// Key width, keys and dictionary of a LowCardinality column.
    pub open spec fn spec_low_cardinality(&self) -> Option<
        (usize, Seq<u8>, sys::chc_column<'a>),
    > {
        match self.payload {
            sys::chc_column_payload::lc(p) => match (p.keys, p.dict) {
                (Some(keys), Some(dict)) if p.key_size > 0 && self.n_rows * p.key_size
                    <= usize::MAX => Some(
                    (p.key_size as usize, keys@.take(self.n_rows * p.key_size), *dict),
                ),
                _ => None,
            },
            _ => None,
        }
    }

    /// Whether the offsets and keys of this column and of every column below
    /// it can be used as indexes.
    ///
    /// Array offsets do not decrease and end within the element column. Keys
    /// have a width that keys can have and are below the row count of the
    /// dictionary.
    pub open spec fn valid(&self) -> bool
        decreases self,
    {
        match self.payload {
            sys::chc_column_payload::nullable(p) => p.inner matches Some(inner) ==> inner.valid(),
            sys::chc_column_payload::array(p) => {
                &&& self.spec_array_offsets() matches Some(offsets) ==> {
                    &&& nondecreasing(offsets)
                    &&& p.values matches Some(values) ==> final_offset(offsets) <= values.n_rows
                }
                &&& p.values matches Some(values) ==> values.valid()
            },
            sys::chc_column_payload::tuple(p) => p.children matches Some(children) ==> forall|
                i: int,
            |
                0 <= i < p.arity && i < children@.len() ==> (#[trigger] children@[
                    i
                ] matches Some(child) ==> child.valid()),
            sys::chc_column_payload::lc(p) => {
                &&& self.spec_low_cardinality() matches Some(view) ==> {
                    &&& is_key_size(view.0 as int)
                    &&& keys_below(view.1, view.0 as nat, self.n_rows as nat, view.2.n_rows as nat)
                }
                &&& p.dict matches Some(dict) ==> dict.valid()
            },
            _ => true,
        }
    }
}

/// Borrowed parts of a LowCardinality column.
#[derive(Clone, Copy)]
pub struct LowCardinalityView<'b> {
    /// Key width in bytes. Valid values are 1, 2, 4, and 8.
    pub key_size: usize,
    /// Raw keys in host byte order. Length is `n_rows * key_size`.
    /// Call [`Column::validate`] before using untrusted keys as indexes.
    pub keys: &'b [u8],
    /// Dictionary referenced by keys.
    pub dict: Column<'b>,
}

/// Borrowed view of a block column.
#[derive(Clone, Copy)]
pub struct Column<'b> {
    raw: &'b sys::chc_column<'b>,
}

impl<'b> View for Column<'b> {
    type V = sys::chc_column<'b>;

    closed spec fn view(&self) -> sys::chc_column<'b> {
        *self.raw
    }
}

impl<'b> Column<'b> {
    #[verifier::type_invariant]
    closed spec fn inv(self) -> bool {
        self.raw.wf()
    }

    /// Views a column record.
    pub(crate) fn from_raw(raw: &'b sys::chc_column<'b>) -> (column: Self)
        requires
            raw.wf(),
        ensures
            column@ == *raw,
    {
        Column { raw }
    }

    /// Column record behind this view.
    pub fn as_raw(&self) -> (raw: &'b sys::chc_column<'b>)
        ensures
            *raw == self@,
            raw.wf(),
    {
        proof {
            use_type_invariant(self);
        }
        self.raw
    }

    pub fn layout(&self) -> (layout: Option<ColumnLayout>)
        ensures
            layout == ColumnLayout::spec_from_raw(self@.layout),
    {
        ColumnLayout::from_raw(self.raw.layout)
    }

    pub fn n_rows(&self) -> (n: usize)
        ensures
            n == self@.n_rows,
    {
        self.raw.n_rows
    }

    /// Returns element width and little-endian data for a fixed-width column.
    pub fn fixed(&self) -> (parts: Option<(usize, &'b [u8])>)
        ensures
            match parts {
                Some((elem_size, bytes)) => self@.spec_fixed() == Some((elem_size, bytes@)),
                None => self@.spec_fixed() is None,
            },
    {
        proof {
            use_type_invariant(self);
        }
        match &self.raw.payload {
            sys::chc_column_payload::fixed(p) => match p.data {
                Some(data) => match self.raw.n_rows.checked_mul(p.elem_size) {
                    Some(n) => {
                        assert(data@.subrange(0, n as int) =~= data@.take(n as int));
                        Some((p.elem_size, slice_subrange(data, 0, n)))
                    },
                    None => None,
                },
                None => None,
            },
            _ => None,
        }
    }

    /// Returns offsets and bytes for a string column.
    ///
    /// Each offset is exclusive end of corresponding row in host byte order.
    /// Layout also represents string-encoded JSON and LowCardinality
    /// dictionaries.
    pub fn string(&self) -> (parts: Option<(&'b [u64], &'b [u8])>)
        ensures
            match parts {
                Some((offsets, data)) => self@.spec_string() == Some((offsets@, data@)),
                None => self@.spec_string() is None,
            },
    {
        proof {
            use_type_invariant(self);
        }
        let n: usize = self.raw.n_rows;
        match &self.raw.payload {
            sys::chc_column_payload::str_(p) => match (p.offsets, p.data) {
                (Some(offsets), Some(data)) => {
                    assert(offsets@.subrange(0, n as int) =~= offsets@.take(n as int));
                    let ends = slice_subrange(offsets, 0, n);
                    // Data is bounded by both final offset and recorded size
                    let claimed: usize = if n == 0 {
                        0
                    } else {
                        ends[n - 1] as usize
                    };
                    let size: usize = if claimed <= p.bytes {
                        claimed
                    } else {
                        p.bytes
                    };
                    assert(data@.subrange(0, size as int) =~= data@.take(size as int));
                    Some((ends, slice_subrange(data, 0, size)))
                },
                (Some(offsets), None) => {
                    if n == 0 {
                        assert(offsets@.subrange(0, 0) =~= Seq::empty());
                        Some((slice_subrange(offsets, 0, 0), text::no_bytes()))
                    } else {
                        None
                    }
                },
                _ => None,
            },
            _ => None,
        }
    }

    pub fn null_map(&self) -> (map: Option<&'b [u8]>)
        ensures
            match map {
                Some(bytes) => self@.spec_null_map() == Some(bytes@),
                None => self@.spec_null_map() is None,
            },
    {
        proof {
            use_type_invariant(self);
        }
        let n: usize = self.raw.n_rows;
        match &self.raw.payload {
            sys::chc_column_payload::nullable(p) => match p.null_map {
                Some(map) => {
                    assert(map@.subrange(0, n as int) =~= map@.take(n as int));
                    Some(slice_subrange(map, 0, n))
                },
                None => None,
            },
            _ => None,
        }
    }

    pub fn nullable_inner(&self) -> (inner: Option<Column<'b>>)
        ensures
            match inner {
                Some(column) => self@.spec_nullable_inner() == Some(column@),
                None => self@.spec_nullable_inner() is None,
            },
    {
        proof {
            use_type_invariant(self);
        }
        match &self.raw.payload {
            sys::chc_column_payload::nullable(p) => match p.inner {
                Some(inner) => Some(Column { raw: inner }),
                None => None,
            },
            _ => None,
        }
    }

    pub fn array_offsets(&self) -> (offsets: Option<&'b [u64]>)
        ensures
            match offsets {
                Some(ends) => self@.spec_array_offsets() == Some(ends@),
                None => self@.spec_array_offsets() is None,
            },
    {
        proof {
            use_type_invariant(self);
        }
        let n: usize = self.raw.n_rows;
        match &self.raw.payload {
            sys::chc_column_payload::array(p) => match p.offsets {
                Some(offsets) => {
                    assert(offsets@.subrange(0, n as int) =~= offsets@.take(n as int));
                    Some(slice_subrange(offsets, 0, n))
                },
                None => None,
            },
            _ => None,
        }
    }

    pub fn array_values(&self) -> (values: Option<Column<'b>>)
        ensures
            match values {
                Some(column) => self@.spec_array_values() == Some(column@),
                None => self@.spec_array_values() is None,
            },
    {
        proof {
            use_type_invariant(self);
        }
        match &self.raw.payload {
            sys::chc_column_payload::array(p) => match p.values {
                Some(values) => Some(Column { raw: values }),
                None => None,
            },
            _ => None,
        }
    }

    pub fn tuple_arity(&self) -> (arity: usize)
        ensures
            arity == self@.spec_tuple_arity(),
    {
        match &self.raw.payload {
            sys::chc_column_payload::tuple(p) => p.arity,
            _ => 0,
        }
    }

    pub fn tuple_child(&self, i: usize) -> (child: Option<Column<'b>>)
        ensures
            match child {
                Some(column) => self@.spec_tuple_child(i as int) == Some(column@),
                None => self@.spec_tuple_child(i as int) is None,
            },
    {
        proof {
            use_type_invariant(self);
        }
        match &self.raw.payload {
            sys::chc_column_payload::tuple(p) => match p.children {
                Some(children) => {
                    if i < p.arity {
                        match children[i] {
                            Some(child) => Some(Column { raw: child }),
                            None => None,
                        }
                    } else {
                        None
                    }
                },
                None => None,
            },
            _ => None,
        }
    }

    /// Returns keys and dictionary for a LowCardinality column.
    pub fn low_cardinality(&self) -> (parts: Option<LowCardinalityView<'b>>)
        ensures
            match parts {
                Some(view) => self@.spec_low_cardinality() == Some(
                    (view.key_size, view.keys@, view.dict@),
                ),
                None => self@.spec_low_cardinality() is None,
            },
    {
        proof {
            use_type_invariant(self);
        }
        match &self.raw.payload {
            sys::chc_column_payload::lc(p) => {
                if p.key_size <= 0 {
                    return None;
                }
                match (p.keys, p.dict) {
                    (Some(keys), Some(dict)) => {
                        let key_size: usize = p.key_size as usize;
                        match self.raw.n_rows.checked_mul(key_size) {
                            Some(n) => {
                                assert(keys@.subrange(0, n as int) =~= keys@.take(n as int));
                                Some(
                                    LowCardinalityView {
                                        key_size,
                                        keys: slice_subrange(keys, 0, n),
                                        dict: Column { raw: dict },
                                    },
                                )
                            },
                            None => None,
                        }
                    },
                    _ => None,
                }
            },
            _ => None,
        }
    }

    /// Validates array offsets and LowCardinality dictionary indexes.
    ///
    /// Validation includes nested columns and returns
    /// [`ErrorKind::Protocol`] for invalid data.
    pub fn validate(&self) -> (result: Result<(), Error>)
        ensures
            error::outcome(result) == column_validity(self@),
    {
        proof {
            use_type_invariant(self);
        }
        if validate_node(self.raw) {
            Ok(())
        } else {
            Err(
                Error::new(
                    ErrorKind::Protocol,
                    "column offsets or keys are out of range".to_owned(),
                ),
            )
        }
    }
}

/// Outcome of a validation of `column`.
pub open spec fn column_validity(column: sys::chc_column) -> Result<(), error::ErrorView> {
    if column.valid() {
        Ok(())
    } else {
        Err(
            error::local_error(ErrorKind::Protocol, "column offsets or keys are out of range"@),
        )
    }
}

/// Whether `offsets` do not decrease.
fn offsets_in_order(offsets: &[u64]) -> (ok: bool)
    ensures
        ok == nondecreasing(offsets@),
{
    let mut i: usize = 1;
    while i < offsets.len()
        invariant
            1 <= i,
            i <= offsets@.len() || offsets@.len() == 0,
            forall|a: int, b: int|
                0 <= a <= b < i && b < offsets@.len() ==> offsets@[a] <= offsets@[b],
        decreases offsets@.len() - i,
    {
        if offsets[i] < offsets[i - 1] {
            return false;
        }
        i = i + 1;
    }
    true
}

/// Whether each of `n_rows` keys is below `bound`.
fn keys_in_range(keys: &[u8], size: usize, n_rows: usize, bound: usize) -> (ok: bool)
    requires
        is_key_size(size as int),
        n_rows * size <= keys.len(),
    ensures
        ok == keys_below(keys@, size as nat, n_rows as nat, bound as nat),
{
    let mut row: usize = 0;
    while row < n_rows
        invariant
            is_key_size(size as int),
            n_rows * size <= keys.len(),
            row <= n_rows,
            keys_below(keys@, size as nat, row as nat, bound as nat),
        decreases n_rows - row,
    {
        proof {
            assert(row * size + size <= keys.len()) by (nonlinear_arith)
                requires
                    row < n_rows,
                    n_rows * size <= keys.len(),
                    size >= 0,
            ;
        }
        if read_key(keys, size, row) >= bound as u64 {
            return false;
        }
        row = row + 1;
    }
    true
}

/// Decides whether a column and every column below it are valid.
fn validate_node(c: &sys::chc_column) -> (ok: bool)
    requires
        c.wf(),
    ensures
        ok == c.valid(),
    decreases *c,
{
    let column = Column { raw: c };
    match &c.payload {
        sys::chc_column_payload::nullable(p) => match p.inner {
            Some(inner) => validate_node(inner),
            None => true,
        },
        sys::chc_column_payload::array(p) => {
            match column.array_offsets() {
                Some(offsets) => {
                    if !offsets_in_order(offsets) {
                        return false;
                    }
                    match p.values {
                        Some(values) => {
                            if c.n_rows > 0 && offsets[c.n_rows - 1] > values.n_rows as u64 {
                                return false;
                            }
                        },
                        None => {},
                    }
                },
                None => {},
            }
            match p.values {
                Some(values) => validate_node(values),
                None => true,
            }
        },
        sys::chc_column_payload::tuple(p) => match p.children {
            Some(children) => {
                let mut i: usize = 0;
                while i < p.arity
                    invariant
                        c.wf(),
                        c.payload == sys::chc_column_payload::tuple(*p),
                        p.children == Some(children),
                        i <= p.arity,
                        forall|j: int|
                            0 <= j < i ==> (#[trigger] children@[j] matches Some(child)
                                ==> child.valid()),
                    decreases p.arity - i,
                {
                    match children[i] {
                        Some(child) => {
                            proof {
                                assert(decreases_to!(*c => c.payload->tuple_0.children->0@[i as int]->0));
                            }
                            if !validate_node(child) {
                                return false;
                            }
                        },
                        None => {},
                    }
                    i = i + 1;
                }
                true
            },
            None => true,
        },
        sys::chc_column_payload::lc(p) => {
            match column.low_cardinality() {
                Some(view) => {
                    if view.key_size != 1 && view.key_size != 2 && view.key_size != 4
                        && view.key_size != 8 {
                        return false;
                    }
                    if !keys_in_range(view.keys, view.key_size, c.n_rows, view.dict.n_rows()) {
                        return false;
                    }
                },
                None => {},
            }
            match p.dict {
                Some(dict) => validate_node(dict),
                None => true,
            }
        },
        _ => true,
    }
}

/// Decides whether the storage of a column and of every column below it is
/// the one that its layout calls for.
pub(crate) fn check_node(c: &sys::chc_column) -> (ok: bool)
    ensures
        ok == c.wf(),
    decreases *c,
{
    match &c.payload {
        sys::chc_column_payload::fixed(p) => {
            c.layout == sys::CHC_COL_FIXED && match p.data {
                Some(data) => match c.n_rows.checked_mul(p.elem_size) {
                    Some(n) => n <= data.len(),
                    None => true,
                },
                None => true,
            }
        },
        sys::chc_column_payload::str_(p) => {
            c.layout == sys::CHC_COL_STRING && match p.offsets {
                Some(offsets) => c.n_rows <= offsets.len(),
                None => true,
            } && match p.data {
                Some(data) => p.bytes <= data.len(),
                None => true,
            }
        },
        sys::chc_column_payload::nullable(p) => {
            c.layout == sys::CHC_COL_NULLABLE && match p.null_map {
                Some(map) => c.n_rows <= map.len(),
                None => true,
            } && match p.inner {
                Some(inner) => check_node(inner),
                None => true,
            }
        },
        sys::chc_column_payload::array(p) => {
            c.layout == sys::CHC_COL_ARRAY && match p.offsets {
                Some(offsets) => c.n_rows <= offsets.len(),
                None => true,
            } && match p.values {
                Some(values) => check_node(values),
                None => true,
            }
        },
        sys::chc_column_payload::tuple(p) => {
            if c.layout != sys::CHC_COL_TUPLE {
                return false;
            }
            match p.children {
                Some(children) => {
                    if p.arity > children.len() {
                        return false;
                    }
                    let mut i: usize = 0;
                    while i < p.arity
                        invariant
                            c.layout == sys::CHC_COL_TUPLE,
                            c.payload == sys::chc_column_payload::tuple(*p),
                            p.children == Some(children),
                            i <= p.arity <= children@.len(),
                            forall|j: int|
                                0 <= j < i ==> (#[trigger] children@[j] matches Some(child)
                                    ==> child.wf()),
                        decreases p.arity - i,
                    {
                        match children[i] {
                            Some(child) => {
                                proof {
                                    assert(decreases_to!(*c => c.payload->tuple_0.children->0@[i as int]->0));
                                }
                                if !check_node(child) {
                                    return false;
                                }
                            },
                            None => {},
                        }
                        i = i + 1;
                    }
                    true
                },
                None => true,
            }
        },
        sys::chc_column_payload::lc(p) => {
            c.layout == sys::CHC_COL_LOW_CARDINALITY && match p.keys {
                Some(keys) => p.key_size <= 0 || match c.n_rows.checked_mul(p.key_size as usize) {
                    Some(n) => n <= keys.len(),
                    None => true,
                },
                None => true,
            } && match p.dict {
                Some(dict) => check_node(dict),
                None => true,
            }
        },
        sys::chc_column_payload::nothing => {
            c.layout != sys::CHC_COL_FIXED && c.layout != sys::CHC_COL_STRING && c.layout
                != sys::CHC_COL_NULLABLE && c.layout != sys::CHC_COL_ARRAY && c.layout
                != sys::CHC_COL_TUPLE && c.layout != sys::CHC_COL_LOW_CARDINALITY
        },
    }
}

/// First element of array row `row`: the end of the row before it.
pub open spec fn row_start(offsets: Seq<u64>, row: int) -> u64 {
    if row == 0 {
        0
    } else {
        offsets[row - 1]
    }
}

/// Each row of a valid array column is a range of rows of its element column.
pub proof fn law_valid_array_rows_are_ranges(column: sys::chc_column, row: int)
    requires
        column.wf(),
        column.valid(),
        column.spec_array_offsets() is Some,
        column.spec_array_values() is Some,
        0 <= row < column.n_rows,
    ensures
        row_start(column.spec_array_offsets()->0, row) <= column.spec_array_offsets()->0[row]
            <= column.spec_array_values()->0.n_rows,
{
}

/// Where the offsets of a string column do not decrease and end within its
/// recorded size, each row is a range of its bytes.
pub proof fn law_string_rows_are_ranges(column: sys::chc_column, row: int)
    requires
        column.wf(),
        column.spec_string() matches Some((offsets, _)) && nondecreasing(offsets) && final_offset(
            offsets,
        ) <= column.payload->str__0.bytes,
        0 <= row < column.n_rows,
    ensures
        column.spec_string() matches Some((offsets, data)) && row_start(offsets, row)
            <= offsets[row] <= data.len(),
{
}

/// Each key of a valid LowCardinality column names a row of its dictionary.
pub proof fn law_valid_keys_index_dictionary(column: sys::chc_column, row: nat)
    requires
        column.wf(),
        column.valid(),
        row < column.n_rows,
    ensures
        column.spec_low_cardinality() matches Some((size, keys, dict)) ==> {
            &&& is_key_size(size as int)
            &&& key_at(keys, size as nat, row) < dict.n_rows
        },
{
}

/// What a valid column holds below it is valid too.
pub proof fn law_valid_reaches_nested_columns(column: sys::chc_column, i: int)
    requires
        column.wf(),
        column.valid(),
    ensures
        column.spec_nullable_inner() matches Some(inner) ==> inner.valid(),
        column.spec_array_values() matches Some(values) ==> values.valid(),
        column.spec_tuple_child(i) matches Some(child) ==> child.valid(),
        column.spec_low_cardinality() matches Some(view) ==> view.2.valid(),
{
}

/// A column offers the parts of its own layout and no others.
pub proof fn law_layout_selects_parts(column: sys::chc_column, i: int)
    requires
        column.wf(),
    ensures
        column.spec_fixed() is Some ==> column.layout == sys::CHC_COL_FIXED,
        column.spec_string() is Some ==> column.layout == sys::CHC_COL_STRING,
        column.spec_null_map() is Some ==> column.layout == sys::CHC_COL_NULLABLE,
        column.spec_nullable_inner() is Some ==> column.layout == sys::CHC_COL_NULLABLE,
        column.spec_array_offsets() is Some ==> column.layout == sys::CHC_COL_ARRAY,
        column.spec_array_values() is Some ==> column.layout == sys::CHC_COL_ARRAY,
        column.spec_tuple_arity() != 0 ==> column.layout == sys::CHC_COL_TUPLE,
        column.spec_tuple_child(i) is Some ==> column.layout == sys::CHC_COL_TUPLE,
        column.spec_low_cardinality() is Some ==> column.layout == sys::CHC_COL_LOW_CARDINALITY,
{
}

/// The slices that a column offers have the lengths that its row count gives.
pub proof fn law_slice_lengths(column: sys::chc_column)
    requires
        column.wf(),
    ensures
        column.spec_fixed() matches Some(parts) ==> parts.1.len() == column.n_rows * parts.0,
        column.spec_string() matches Some(parts) ==> parts.0.len() == column.n_rows,
        column.spec_null_map() matches Some(map) ==> map.len() == column.n_rows,
        column.spec_array_offsets() matches Some(offsets) ==> offsets.len() == column.n_rows,
        column.spec_low_cardinality() matches Some(view) ==> view.1.len() == column.n_rows
            * view.0,
{
    match column.payload {
        sys::chc_column_payload::fixed(p) => {
            assert(column.n_rows * p.elem_size >= 0) by (nonlinear_arith);
        },
        sys::chc_column_payload::lc(p) => {
            if p.key_size > 0 {
                assert(column.n_rows * p.key_size >= 0) by (nonlinear_arith)
                    requires
                        p.key_size > 0,
                ;
            }
        },
        _ => {},
    }
}

/// Each code names the layout that it is called after, and any other code none.
pub proof fn law_layout_of_each_code(k: sys::chc_col_kind, found: Option<ColumnLayout>)
    requires
        call_ensures(ColumnLayout::from_raw, (k,), found),
    ensures
        found == Some(ColumnLayout::Fixed) <==> k == sys::CHC_COL_FIXED,
        found == Some(ColumnLayout::String) <==> k == sys::CHC_COL_STRING,
        found == Some(ColumnLayout::Nullable) <==> k == sys::CHC_COL_NULLABLE,
        found == Some(ColumnLayout::Array) <==> k == sys::CHC_COL_ARRAY,
        found == Some(ColumnLayout::Tuple) <==> k == sys::CHC_COL_TUPLE,
        found == Some(ColumnLayout::LowCardinality) <==> k == sys::CHC_COL_LOW_CARDINALITY,
        found == Some(ColumnLayout::Nothing) <==> k == sys::CHC_COL_NOTHING,
{
}

/// Each layout has the code that is called after it.
pub proof fn law_code_of_each_layout(layout: ColumnLayout, code: sys::chc_col_kind)
    requires
        call_ensures(ColumnLayout::code, (layout,), code),
    ensures
        layout == ColumnLayout::Fixed ==> code == sys::CHC_COL_FIXED,
        layout == ColumnLayout::String ==> code == sys::CHC_COL_STRING,
        layout == ColumnLayout::Nullable ==> code == sys::CHC_COL_NULLABLE,
        layout == ColumnLayout::Array ==> code == sys::CHC_COL_ARRAY,
        layout == ColumnLayout::Tuple ==> code == sys::CHC_COL_TUPLE,
        layout == ColumnLayout::LowCardinality ==> code == sys::CHC_COL_LOW_CARDINALITY,
        layout == ColumnLayout::Nothing ==> code == sys::CHC_COL_NOTHING,
{
}

/// A key is the number that its bytes hold in the byte order of the host.
pub proof fn law_key_is_read_in_host_byte_order(
    keys: &[u8],
    size: usize,
    row: usize,
    key: u64,
    at: int,
)
    requires
        call_ensures(read_key, (keys, size, row), key),
        is_key_size(size as int),
        at == row * size,
        0 <= at && at + size <= keys@.len(),
    ensures
        size == 1 || size == 2 || size == 4 || size == 8,
        size == 1 ==> key == keys@[at],
        size == 2 && endianness() == Endian::Little ==> key == keys@[at] + 0x100 * keys@[at + 1],
        size == 2 && endianness() == Endian::Big ==> key == keys@[at + 1] + 0x100 * keys@[at],
        size == 4 && endianness() == Endian::Little ==> key == keys@[at] + 0x100 * keys@[at + 1]
            + 0x1_0000 * keys@[at + 2] + 0x100_0000 * keys@[at + 3],
        size == 4 && endianness() == Endian::Big ==> key == keys@[at + 3] + 0x100 * keys@[at + 2]
            + 0x1_0000 * keys@[at + 1] + 0x100_0000 * keys@[at],
        size == 8 && endianness() == Endian::Little ==> key == keys@[at] + 0x100 * keys@[at + 1]
            + 0x1_0000 * keys@[at + 2] + 0x100_0000 * keys@[at + 3] + 0x1_0000_0000 * keys@[at + 4]
            + 0x100_0000_0000 * keys@[at + 5] + 0x1_0000_0000_0000 * keys@[at + 6]
            + 0x100_0000_0000_0000 * keys@[at + 7],
        size == 8 && endianness() == Endian::Big ==> key == keys@[at + 7] + 0x100 * keys@[at + 6]
            + 0x1_0000 * keys@[at + 5] + 0x100_0000 * keys@[at + 4] + 0x1_0000_0000 * keys@[at + 3]
            + 0x100_0000_0000 * keys@[at + 2] + 0x1_0000_0000_0000 * keys@[at + 1]
            + 0x100_0000_0000_0000 * keys@[at],
{
    let bytes = keys@.subrange(at, at + size);
    lemma_bytes_value(bytes);
    assert(key == bytes_value(bytes, endianness()));
}

/// Value of a byte string, written out.
proof fn lemma_bytes_value(b: Seq<u8>)
    requires
        is_key_size(b.len() as int),
    ensures
        b.len() == 1 ==> bytes_value(b, Endian::Little) == b[0] && bytes_value(b, Endian::Big)
            == b[0],
        b.len() == 2 ==> bytes_value(b, Endian::Little) == b[0] + 0x100 * b[1] && bytes_value(
            b,
            Endian::Big,
        ) == b[1] + 0x100 * b[0],
        b.len() == 4 ==> bytes_value(b, Endian::Little) == b[0] + 0x100 * b[1] + 0x1_0000 * b[2]
            + 0x100_0000 * b[3] && bytes_value(b, Endian::Big) == b[3] + 0x100 * b[2] + 0x1_0000
            * b[1] + 0x100_0000 * b[0],
        b.len() == 8 ==> bytes_value(b, Endian::Little) == b[0] + 0x100 * b[1] + 0x1_0000 * b[2]
            + 0x100_0000 * b[3] + 0x1_0000_0000 * b[4] + 0x100_0000_0000 * b[5]
            + 0x1_0000_0000_0000 * b[6] + 0x100_0000_0000_0000 * b[7],
        b.len() == 8 ==> bytes_value(b, Endian::Big) == b[7] + 0x100 * b[6] + 0x1_0000 * b[5]
            + 0x100_0000 * b[4] + 0x1_0000_0000 * b[3] + 0x100_0000_0000 * b[2]
            + 0x1_0000_0000_0000 * b[1] + 0x100_0000_0000_0000 * b[0],
{
    reveal_with_fuel(bytes_value, 9);
    let n = b.len() as int;
    assert(b.drop_first() =~= b.subrange(1, n));
    assert(b.drop_last() =~= b.subrange(0, n - 1));
    assert forall|i: int| 0 < i < n implies (#[trigger] b.subrange(i, n)).drop_first()
        =~= b.subrange(i + 1, n) && b.subrange(i, n)[0] == b[i] by {}
    assert forall|i: int| 0 < i < n implies (#[trigger] b.subrange(0, i)).drop_last()
        =~= b.subrange(0, i - 1) && b.subrange(0, i).last() == b[i - 1] by {}
}

/// A column says the row count of its record and the layout that its code
/// names.
pub proof fn law_column_shows_its_record<'b>(
    column: Column<'b>,
    raw: &'b sys::chc_column<'b>,
    n: usize,
    layout: Option<ColumnLayout>,
    found: Option<ColumnLayout>,
)
    requires
        call_ensures(Column::as_raw, (&column,), raw),
        call_ensures(Column::n_rows, (&column,), n),
        call_ensures(Column::layout, (&column,), layout),
        call_ensures(ColumnLayout::from_raw, (raw.layout,), found),
    ensures
        *raw == column@,
        n == raw.n_rows,
        layout == found,
        layout matches Some(l) ==> l.spec_code() == raw.layout,
{
    if let Some(l) = layout {
        law_code_layout_round_trip(raw.layout, l);
    }
}

/// A fixed-width column hands out its width and the bytes of its rows. There is
/// nothing to hand out where it has no data, or its rows take more bytes than a
/// length can say.
pub proof fn law_fixed_hands_out_its_rows<'b>(
    column: Column<'b>,
    parts: Option<(usize, &'b [u8])>,
)
    requires
        call_ensures(Column::fixed, (&column,), parts),
    ensures
        match column@.payload {
            sys::chc_column_payload::fixed(p) => match p.data {
                Some(data) => if column@.n_rows * p.elem_size <= usize::MAX {
                    parts matches Some((width, bytes)) && width == p.elem_size && bytes@
                        == data@.subrange(0, column@.n_rows * p.elem_size)
                } else {
                    parts is None
                },
                None => parts is None,
            },
            _ => parts is None,
        },
{
    if let sys::chc_column_payload::fixed(p) = column@.payload {
        if let Some(data) = p.data {
            let n = column@.n_rows * p.elem_size;
            assert(data@.take(n) == data@.subrange(0, n));
        }
    }
}

/// A string column hands out the offset of each row, and its bytes up to the
/// final offset, or up to the recorded size where that is smaller.
pub proof fn law_string_hands_out_its_rows<'b>(
    column: Column<'b>,
    parts: Option<(&'b [u64], &'b [u8])>,
)
    requires
        call_ensures(Column::string, (&column,), parts),
        column@.wf(),
    ensures
        match column@.payload {
            sys::chc_column_payload::str_(p) => match (p.offsets, p.data) {
                (Some(offsets), Some(data)) => {
                    let n = column@.n_rows as int;
                    let last = if n == 0 {
                        0usize
                    } else {
                        offsets@[n - 1] as usize
                    };
                    parts matches Some((ends, bytes)) && ends@ == offsets@.subrange(0, n) && bytes@
                        == data@.subrange(
                        0,
                        if last <= p.bytes {
                            last as int
                        } else {
                            p.bytes as int
                        },
                    )
                },
                (Some(_), None) => if column@.n_rows == 0 {
                    parts matches Some((ends, bytes)) && ends@.len() == 0 && bytes@.len() == 0
                } else {
                    parts is None
                },
                (None, _) => parts is None,
            },
            _ => parts is None,
        },
{
    if let sys::chc_column_payload::str_(p) = column@.payload {
        if let (Some(offsets), Some(data)) = (p.offsets, p.data) {
            let n = column@.n_rows as int;
            let ends = offsets@.subrange(0, n);
            assert(offsets@.take(n) == ends);
            let last = final_offset(ends) as usize;
            let size = if last <= p.bytes {
                last as int
            } else {
                p.bytes as int
            };
            assert(data@.take(size) == data@.subrange(0, size));
        }
    }
}

/// A nullable column hands out the mark of each row and its inner column.
pub proof fn law_nullable_hands_out_its_parts<'b>(
    column: Column<'b>,
    map: Option<&'b [u8]>,
    inner: Option<Column<'b>>,
)
    requires
        call_ensures(Column::null_map, (&column,), map),
        call_ensures(Column::nullable_inner, (&column,), inner),
    ensures
        match column@.payload {
            sys::chc_column_payload::nullable(p) => {
                &&& map is Some <==> p.null_map is Some
                &&& map matches Some(bytes) ==> bytes@ == p.null_map->0@.subrange(
                    0,
                    column@.n_rows as int,
                )
                &&& inner is Some <==> p.inner is Some
                &&& inner matches Some(c) ==> c@ == *p.inner->0
            },
            _ => map is None && inner is None,
        },
{
    if let sys::chc_column_payload::nullable(p) = column@.payload {
        if let Some(m) = p.null_map {
            let n = column@.n_rows as int;
            assert(m@.take(n) == m@.subrange(0, n));
        }
    }
}

/// An array column hands out the offset of each row and its element column.
pub proof fn law_array_hands_out_its_parts<'b>(
    column: Column<'b>,
    offsets: Option<&'b [u64]>,
    values: Option<Column<'b>>,
)
    requires
        call_ensures(Column::array_offsets, (&column,), offsets),
        call_ensures(Column::array_values, (&column,), values),
    ensures
        match column@.payload {
            sys::chc_column_payload::array(p) => {
                &&& offsets is Some <==> p.offsets is Some
                &&& offsets matches Some(ends) ==> ends@ == p.offsets->0@.subrange(
                    0,
                    column@.n_rows as int,
                )
                &&& values is Some <==> p.values is Some
                &&& values matches Some(c) ==> c@ == *p.values->0
            },
            _ => offsets is None && values is None,
        },
{
    if let sys::chc_column_payload::array(p) = column@.payload {
        if let Some(m) = p.offsets {
            let n = column@.n_rows as int;
            assert(m@.take(n) == m@.subrange(0, n));
        }
    }
}

/// A tuple column counts its children and hands out the one at each place.
pub proof fn law_tuple_hands_out_its_children<'b>(
    column: Column<'b>,
    arity: usize,
    i: usize,
    child: Option<Column<'b>>,
)
    requires
        call_ensures(Column::tuple_arity, (&column,), arity),
        call_ensures(Column::tuple_child, (&column, i), child),
    ensures
        match column@.payload {
            sys::chc_column_payload::tuple(p) => {
                &&& arity == p.arity
                &&& child is Some <==> (i < arity && (p.children matches Some(children)
                    && children@[i as int] is Some))
                &&& child matches Some(c) ==> c@ == *p.children->0@[i as int]->0
            },
            _ => arity == 0 && child is None,
        },
{
}

/// A LowCardinality column hands out the width of its keys, the key of each row
/// and its dictionary. There is nothing to hand out where a part is missing, the
/// width is not positive, or the keys take more bytes than a length can say.
pub proof fn law_low_cardinality_hands_out_its_parts<'b>(
    column: Column<'b>,
    parts: Option<LowCardinalityView<'b>>,
)
    requires
        call_ensures(Column::low_cardinality, (&column,), parts),
    ensures
        match column@.payload {
            sys::chc_column_payload::lc(p) => match (p.keys, p.dict) {
                (Some(keys), Some(dict)) => if p.key_size > 0 && column@.n_rows * p.key_size
                    <= usize::MAX {
                    parts matches Some(view) && view.key_size == p.key_size && view.keys@
                        == keys@.subrange(0, column@.n_rows * p.key_size) && view.dict@ == *dict
                } else {
                    parts is None
                },
                _ => parts is None,
            },
            _ => parts is None,
        },
{
    if let sys::chc_column_payload::lc(p) = column@.payload {
        if let Some(keys) = p.keys {
            let n = column@.n_rows * p.key_size;
            assert(keys@.take(n) == keys@.subrange(0, n));
        }
    }
}

/// A column without offsets or keys of its own is valid exactly where the
/// columns below it are.
pub proof fn law_validity_comes_from_below(column: sys::chc_column<'_>)
    ensures
        match column.payload {
            sys::chc_column_payload::fixed(_) => column.valid(),
            sys::chc_column_payload::str_(_) => column.valid(),
            sys::chc_column_payload::nothing => column.valid(),
            sys::chc_column_payload::nullable(p) => column.valid() <==> (p.inner matches Some(inner)
                ==> inner.valid()),
            sys::chc_column_payload::tuple(p) => column.valid() <==> (
            p.children matches Some(children) ==> forall|i: int|
                0 <= i < p.arity && i < children@.len() ==> (#[trigger] children@[i] matches Some(
                    child,
                ) ==> child.valid())),
            _ => true,
        },
{
}

/// An array column is valid exactly where its offsets do not decrease and end
/// within its elements, and its element column is valid.
pub proof fn law_array_is_valid_by_its_offsets<'b>(
    column: sys::chc_column<'b>,
    p: sys::chc_column_array<'b>,
)
    requires
        column.wf(),
        column.payload == sys::chc_column_payload::array(p),
    ensures
        column.valid() <==> {
            &&& p.offsets matches Some(offsets) ==> {
                &&& forall|i: int, j: int|
                    0 <= i <= j < column.n_rows ==> offsets@[i] <= offsets@[j]
                &&& p.values matches Some(values) ==> column.n_rows > 0 ==> offsets@[
                column.n_rows - 1] <= values.n_rows
            }
            &&& p.values matches Some(values) ==> values.valid()
        },
{
    if let Some(offsets) = p.offsets {
        let ends = offsets@.take(column.n_rows as int);
        assert(column.spec_array_offsets() == Some(ends));
        assert(ends.len() == column.n_rows);
        assert(forall|i: int| 0 <= i < column.n_rows ==> ends[i] == offsets@[i]);
        if nondecreasing(ends) {
            assert forall|i: int, j: int| 0 <= i <= j < column.n_rows implies offsets@[i]
                <= offsets@[j] by {
                assert(ends[i] <= ends[j]);
            }
        }
    }
}

/// A LowCardinality column is valid exactly where its keys have a width that
/// keys can have and each is below the row count of the dictionary, and its
/// dictionary is valid.
pub proof fn law_low_cardinality_is_valid_by_its_keys<'b>(
    column: sys::chc_column<'b>,
    p: sys::chc_column_lc<'b>,
)
    requires
        column.wf(),
        column.payload == sys::chc_column_payload::lc(p),
    ensures
        column.valid() <==> {
            &&& p.keys is Some && p.dict is Some && p.key_size > 0 && column.n_rows * p.key_size
                <= usize::MAX ==> {
                &&& p.key_size == 1 || p.key_size == 2 || p.key_size == 4 || p.key_size == 8
                &&& forall|row: nat|
                    row < column.n_rows ==> #[trigger] key_at(
                        p.keys->0@.take(column.n_rows * p.key_size),
                        p.key_size as nat,
                        row,
                    ) < p.dict->0.n_rows
            }
            &&& p.dict matches Some(dict) ==> dict.valid()
        },
{
}

/// Validation accepts a valid column, and reports an error of the protocol for
/// any other.
pub proof fn law_validation_accepts_valid_columns_alone(
    column: Column<'_>,
    result: Result<(), Error>,
)
    requires
        call_ensures(Column::validate, (&column,), result),
    ensures
        result is Ok <==> column@.valid(),
        result matches Err(e) ==> e.kind == ErrorKind::Protocol && e.server_code == 0
            && e.server_name@.len() == 0,
{
}

/// A column is well formed exactly where its layout is that of its storage,
/// every slice is as long as the rows need, and every column below it is well
/// formed.
pub proof fn law_form_of_each_layout(column: sys::chc_column<'_>)
    ensures
        column.wf() <==> match column.payload {
            sys::chc_column_payload::fixed(p) => column.layout == sys::CHC_COL_FIXED && (
            p.data matches Some(data) ==> column.n_rows * p.elem_size <= data@.len()
                || column.n_rows * p.elem_size > usize::MAX),
            sys::chc_column_payload::str_(p) => column.layout == sys::CHC_COL_STRING && (
            p.offsets matches Some(offsets) ==> column.n_rows <= offsets@.len()) && (
            p.data matches Some(data) ==> p.bytes <= data@.len()),
            sys::chc_column_payload::nullable(p) => column.layout == sys::CHC_COL_NULLABLE && (
            p.null_map matches Some(map) ==> column.n_rows <= map@.len()) && (
            p.inner matches Some(inner) ==> inner.wf()),
            sys::chc_column_payload::array(p) => column.layout == sys::CHC_COL_ARRAY && (
            p.offsets matches Some(offsets) ==> column.n_rows <= offsets@.len()) && (
            p.values matches Some(values) ==> values.wf()),
            sys::chc_column_payload::tuple(p) => column.layout == sys::CHC_COL_TUPLE && (
            p.children matches Some(children) ==> p.arity <= children@.len() && forall|i: int|
                0 <= i < p.arity ==> (#[trigger] children@[i] matches Some(child) ==> child.wf())),
            sys::chc_column_payload::lc(p) => column.layout == sys::CHC_COL_LOW_CARDINALITY && (
            p.keys matches Some(keys) ==> p.key_size <= 0 || column.n_rows * p.key_size
                <= keys@.len() || column.n_rows * p.key_size > usize::MAX) && (
            p.dict matches Some(dict) ==> dict.wf()),
            sys::chc_column_payload::nothing => column.layout != sys::CHC_COL_FIXED && column.layout
                != sys::CHC_COL_STRING && column.layout != sys::CHC_COL_NULLABLE && column.layout
                != sys::CHC_COL_ARRAY && column.layout != sys::CHC_COL_TUPLE && column.layout
                != sys::CHC_COL_LOW_CARDINALITY,
        },
{
}

} // verus!
