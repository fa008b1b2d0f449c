//! Native block construction.
//!
//! [`ColumnBuilder`] borrows source data without copying it. Wrapper columns
//! also borrow their child columns. [`BlockBuilder`] retains these borrows
//! until block is written.

use vstd::prelude::*;
use vstd::string::*;

use crate::column;
use crate::column::Column;
use crate::error;
use crate::error::Error;
use crate::sys;
use crate::text;
use crate::types::TypeRef;

verus! {

/// Outcome of a comparison of a length with the one that is required.
pub open spec fn length_check(label: Seq<char>, actual: nat, expected: nat) -> Result<
    (),
    error::ErrorView,
> {
    if actual == expected {
        Ok(())
    } else {
        Err(
            error::usage_error(
                label + " length mismatch: got "@ + text::decimal(actual) + ", expected "@
                    + text::decimal(expected),
            ),
        )
    }
}

/// Outcome of a comparison of a length with the least one that is required.
pub open spec fn cover_check(label: Seq<char>, actual: nat, needed: nat) -> Result<
    (),
    error::ErrorView,
> {
    if actual >= needed {
        Ok(())
    } else {
        Err(
            error::usage_error(
                label + " too short: got "@ + text::decimal(actual) + ", need at least "@
                    + text::decimal(needed),
            ),
        )
    }
}

/// Bytes of `count` items of `width` bytes each, where a length can hold them.
pub open spec fn product_check(count: nat, width: nat, label: Seq<char>) -> Result<
    usize,
    error::ErrorView,
> {
    if count * width <= usize::MAX {
        Ok((count * width) as usize)
    } else {
        Err(
            error::usage_error(
                label + " length overflow: "@ + text::decimal(count) + " * "@ + text::decimal(
                    width,
                ),
            ),
        )
    }
}

/// First row from `row` on whose offset is below the one before it, or the
/// number of rows when there is none.
pub open spec fn first_descent(offsets: Seq<u64>, row: nat) -> nat
    decreases offsets.len() - row,
{
    if row >= offsets.len() {
        offsets.len()
    } else if row > 0 && offsets[row as int] < offsets[row - 1] {
        row
    } else {
        first_descent(offsets, row + 1)
    }
}

/// Outcome of a check of `n_rows` cumulative offsets. A success gives the
/// final offset.
pub open spec fn offsets_check(offsets: Seq<u64>, n_rows: nat, label: Seq<char>) -> Result<
    usize,
    error::ErrorView,
> {
    match length_check(label + " offsets"@, offsets.len(), n_rows) {
        Err(e) => Err(e),
        Ok(()) => {
            let row = first_descent(offsets, 0);
            let last = column::final_offset(offsets);
            if row < offsets.len() {
                Err(
                    error::usage_error(
                        label + " offsets not monotonic at row "@ + text::decimal(row) + ": "@
                            + text::decimal(offsets[row as int] as nat) + " < "@ + text::decimal(
                            offsets[row - 1] as nat,
                        ),
                    ),
                )
            } else if last > usize::MAX {
                Err(
                    error::usage_error(
                        label + " final offset does not fit usize: "@ + text::decimal(last as nat),
                    ),
                )
            } else {
                Ok(last as usize)
            }
        },
    }
}

/// Outcome of a check of string offsets against the length of their data.
pub open spec fn string_check(
    offsets: Seq<u64>,
    data_len: nat,
    n_rows: nat,
    label: Seq<char>,
) -> Result<(), error::ErrorView> {
    match offsets_check(offsets, n_rows, label) {
        Err(e) => Err(e),
        Ok(last) => cover_check(label + " data"@, data_len, last as nat),
    }
}

/// First row from `row` on whose key is not below `bound`, or `rows` when
/// there is none.
pub open spec fn first_key_out_of_range(
    keys: Seq<u8>,
    size: nat,
    rows: nat,
    bound: nat,
    row: nat,
) -> nat
    decreases rows - row,
{
    if row >= rows {
        rows
    } else if column::key_at(keys, size, row) >= bound {
        row
    } else {
        first_key_out_of_range(keys, size, rows, bound, row + 1)
    }
}

/// Outcome of a check of dictionary keys.
pub open spec fn keys_check(keys: Seq<u8>, key_size: int, n_rows: nat, dict_n: nat) -> Result<
    (),
    error::ErrorView,
> {
    if !column::is_key_size(key_size) {
        Err(
            error::usage_error(
                "LowCardinality key size must be 1, 2, 4, or 8, got "@ + text::signed_decimal(
                    key_size,
                ),
            ),
        )
    } else {
        let size = key_size as nat;
        match product_check(n_rows, size, "LowCardinality keys"@) {
            Err(e) => Err(e),
            Ok(needed) => match length_check("LowCardinality keys"@, keys.len(), needed as nat) {
                Err(e) => Err(e),
                Ok(()) => {
                    let row = first_key_out_of_range(keys, size, n_rows, dict_n, 0);
                    if row < n_rows {
                        Err(
                            error::usage_error(
                                "LowCardinality key out of range at row "@ + text::decimal(row)
                                    + ": "@ + text::decimal(column::key_at(keys, size, row))
                                    + " >= "@ + text::decimal(dict_n),
                            ),
                        )
                    } else {
                        Ok(())
                    }
                },
            },
        }
    }
}

/// Row metadata lengths must exactly match declared row count.
fn require_len(label: &str, actual: usize, expected: usize) -> (result: Result<(), Error>)
    ensures
        error::outcome(result) == length_check(label@, actual as nat, expected as nat),
{
    if actual == expected {
        Ok(())
    } else {
        let mut message = label.to_owned();
        message.append(" length mismatch: got ");
        message.append(text::decimal_text(actual as u64).as_str());
        message.append(", expected ");
        message.append(text::decimal_text(expected as u64).as_str());
        Err(Error::usage(message))
    }
}

/// The writer reads the required prefix and ignores extra bytes.
fn require_covers(label: &str, actual: usize, needed: usize) -> (result: Result<(), Error>)
    ensures
        error::outcome(result) == cover_check(label@, actual as nat, needed as nat),
{
    if actual >= needed {
        Ok(())
    } else {
        let mut message = label.to_owned();
        message.append(" too short: got ");
        message.append(text::decimal_text(actual as u64).as_str());
        message.append(", need at least ");
        message.append(text::decimal_text(needed as u64).as_str());
        Err(Error::usage(message))
    }
}

fn checked_len(count: usize, width: usize, label: &str) -> (result: Result<usize, Error>)
    ensures
        error::outcome(result) == product_check(count as nat, width as nat, label@),
{
    match count.checked_mul(width) {
        Some(n) => Ok(n),
        None => {
            let mut message = label.to_owned();
            message.append(" length overflow: ");
            message.append(text::decimal_text(count as u64).as_str());
            message.append(" * ");
            message.append(text::decimal_text(width as u64).as_str());
            Err(Error::usage(message))
        },
    }
}

/// Says what `first_descent` finds.
proof fn lemma_first_descent(offsets: Seq<u64>, row: nat, found: nat)
    requires
        row <= found <= offsets.len(),
        found < offsets.len() ==> found > 0 && offsets[found as int] < offsets[found - 1],
        forall|i: int| row <= i < found && 0 < i ==> #[trigger] offsets[i] >= offsets[i - 1],
    ensures
        first_descent(offsets, row) == found,
    decreases found - row,
{
    if row < found {
        assert(row > 0 ==> offsets[row as int] >= offsets[row - 1]);
        lemma_first_descent(offsets, row + 1, found);
    }
}

/// Offsets without a descent do not decrease.
proof fn lemma_no_descent(offsets: Seq<u64>, row: nat)
    ensures
        first_descent(offsets, row) <= offsets.len(),
        first_descent(offsets, row) == offsets.len() ==> forall|i: int|
            row <= i < offsets.len() && 0 < i ==> #[trigger] offsets[i] >= offsets[i - 1],
    decreases offsets.len() - row,
{
    if row < offsets.len() && !(row > 0 && offsets[row as int] < offsets[row - 1]) {
        lemma_no_descent(offsets, row + 1);
    }
}

/// A sequence whose neighbours are in order is in order.
proof fn lemma_neighbours_in_order(offsets: Seq<u64>)
    requires
        forall|i: int| 0 < i < offsets.len() ==> #[trigger] offsets[i] >= offsets[i - 1],
    ensures
        column::nondecreasing(offsets),
    decreases offsets.len(),
{
    if offsets.len() > 0 {
        let shorter = offsets.drop_last();
        lemma_neighbours_in_order(shorter);
        assert forall|i: int, j: int| 0 <= i <= j < offsets.len() implies offsets[i]
            <= offsets[j] by {
            if i < j && j == offsets.len() - 1 {
                assert(shorter[i] <= shorter[j - 1]);
                assert(offsets[j] >= offsets[j - 1]);
            } else if j < offsets.len() - 1 {
                assert(shorter[i] <= shorter[j]);
            }
        }
    }
}

fn validate_offsets(offsets: &[u64], n_rows: usize, label: &str) -> (result: Result<usize, Error>)
    ensures
        error::outcome(result) == offsets_check(offsets@, n_rows as nat, label@),
{
    let mut counted = label.to_owned();
    counted.append(" offsets");
    match require_len(counted.as_str(), offsets.len(), n_rows) {
        Ok(()) => {},
        Err(e) => {
            return Err(e);
        },
    }
    let mut previous: u64 = 0;
    let mut row: usize = 0;
    while row < offsets.len()
        invariant
            row <= offsets@.len(),
            offsets@.len() == n_rows,
            previous == if row == 0 {
                0
            } else {
                offsets@[row - 1]
            },
            forall|i: int| 0 < i < row ==> #[trigger] offsets@[i] >= offsets@[i - 1],
        decreases offsets@.len() - row,
    {
        let end: u64 = offsets[row];
        if end < previous {
            proof {
                lemma_first_descent(offsets@, 0, row as nat);
            }
            let mut message = label.to_owned();
            message.append(" offsets not monotonic at row ");
            message.append(text::decimal_text(row as u64).as_str());
            message.append(": ");
            message.append(text::decimal_text(end).as_str());
            message.append(" < ");
            message.append(text::decimal_text(previous).as_str());
            return Err(Error::usage(message));
        }
        previous = end;
        row = row + 1;
    }
    proof {
        lemma_first_descent(offsets@, 0, row as nat);
    }
    if previous > usize::MAX as u64 {
        let mut message = label.to_owned();
        message.append(" final offset does not fit usize: ");
        message.append(text::decimal_text(previous).as_str());
        return Err(Error::usage(message));
    }
    Ok(previous as usize)
}

fn validate_string(offsets: &[u64], data_len: usize, n_rows: usize, label: &str) -> (result: Result<
    (),
    Error,
>)
    ensures
        error::outcome(result) == string_check(offsets@, data_len as nat, n_rows as nat, label@),
{
    match validate_offsets(offsets, n_rows, label) {
        Ok(last) => {
            let mut covered = label.to_owned();
            covered.append(" data");
            require_covers(covered.as_str(), data_len, last)
        },
        Err(e) => Err(e),
    }
}

/// Says what `first_key_out_of_range` finds.
proof fn lemma_first_key_out_of_range(
    keys: Seq<u8>,
    size: nat,
    rows: nat,
    bound: nat,
    row: nat,
    found: nat,
)
    requires
        row <= found <= rows,
        found < rows ==> column::key_at(keys, size, found) >= bound,
        forall|i: nat| row <= i < found ==> #[trigger] column::key_at(keys, size, i) < bound,
    ensures
        first_key_out_of_range(keys, size, rows, bound, row) == found,
    decreases found - row,
{
    if row < found {
        assert(column::key_at(keys, size, row) < bound);
        lemma_first_key_out_of_range(keys, size, rows, bound, row + 1, found);
    }
}

/// Keys without one out of range are all in range.
proof fn lemma_all_keys_in_range(keys: Seq<u8>, size: nat, rows: nat, bound: nat, row: nat)
    requires
        row <= rows,
    ensures
        first_key_out_of_range(keys, size, rows, bound, row) <= rows,
        first_key_out_of_range(keys, size, rows, bound, row) == rows ==> forall|i: nat|
            row <= i < rows ==> #[trigger] column::key_at(keys, size, i) < bound,
    decreases rows - row,
{
    if row < rows && column::key_at(keys, size, row) < bound {
        lemma_all_keys_in_range(keys, size, rows, bound, row + 1);
    }
}

fn validate_low_cardinality_keys(
    keys: &[u8],
    key_size: i32,
    n_rows: usize,
    dict_n: usize,
) -> (result: Result<(), Error>)
    ensures
        error::outcome(result) == keys_check(
            keys@,
            key_size as int,
            n_rows as nat,
            dict_n as nat,
        ),
{
    if key_size != 1 && key_size != 2 && key_size != 4 && key_size != 8 {
        let mut message = "LowCardinality key size must be 1, 2, 4, or 8, got ".to_owned();
        message.append(text::signed_decimal_text(key_size as i64).as_str());
        return Err(Error::usage(message));
    }
    let size: usize = key_size as usize;
    let needed: usize = match checked_len(n_rows, size, "LowCardinality keys") {
        Ok(n) => n,
        Err(e) => {
            return Err(e);
        },
    };
    match require_len("LowCardinality keys", keys.len(), needed) {
        Ok(()) => {},
        Err(e) => {
            return Err(e);
        },
    }
    let mut row: usize = 0;
    while row < n_rows
        invariant
            column::is_key_size(size as int),
            size == key_size,
            needed == n_rows * size,
            keys.len() == needed,
            product_check(n_rows as nat, size as nat, "LowCardinality keys"@) == Ok::<
                usize,
                error::ErrorView,
            >(needed),
            row <= n_rows,
            forall|i: nat|
                i < row ==> #[trigger] column::key_at(keys@, size as nat, i) < dict_n,
        decreases n_rows - row,
    {
        proof {
            assert(row * size + size <= keys.len()) by (nonlinear_arith)
                requires
                    row < n_rows,
                    n_rows * size == keys.len(),
                    size >= 0,
            ;
        }
        let value: u64 = column::read_key(keys, size, row);
        if value >= dict_n as u64 {
            proof {
                lemma_first_key_out_of_range(
                    keys@,
                    size as nat,
                    n_rows as nat,
                    dict_n as nat,
                    0,
                    row as nat,
                );
            }
            let mut message = "LowCardinality key out of range at row ".to_owned();
            message.append(text::decimal_text(row as u64).as_str());
            message.append(": ");
            message.append(text::decimal_text(value).as_str());
            message.append(" >= ");
            message.append(text::decimal_text(dict_n as u64).as_str());
            return Err(Error::usage(message));
        }
        row = row + 1;
    }
    proof {
        lemma_first_key_out_of_range(
            keys@,
            size as nat,
            n_rows as nat,
            dict_n as nat,
            0,
            row as nat,
        );
    }
    Ok(())
}

/// Fixed-width column over `data`.
pub open spec fn fixed_node<'x>(
    data: &'x [u8],
    elem_size: usize,
    n_rows: usize,
) -> sys::chc_column<'x> {
    sys::chc_column {
        layout: sys::CHC_COL_FIXED,
        n_rows,
        payload: sys::chc_column_payload::fixed(
            sys::chc_column_fixed { data: Some(data), elem_size },
        ),
    }
}

/// String column over `offsets` and `data`.
pub open spec fn string_node<'x>(
    offsets: &'x [u64],
    data: &'x [u8],
    n_rows: usize,
) -> sys::chc_column<'x> {
    sys::chc_column {
        layout: sys::CHC_COL_STRING,
        n_rows,
        payload: sys::chc_column_payload::str_(
            sys::chc_column_str {
                data: Some(data),
                offsets: Some(offsets),
                bytes: column::final_offset(offsets@) as usize,
            },
        ),
    }
}

/// Nullable column over `null_map` and `inner`.
pub open spec fn nullable_node<'x>(
    null_map: &'x [u8],
    inner: &'x sys::chc_column<'x>,
) -> sys::chc_column<'x> {
    sys::chc_column {
        layout: sys::CHC_COL_NULLABLE,
        n_rows: inner.n_rows,
        payload: sys::chc_column_payload::nullable(
            sys::chc_column_nullable { null_map: Some(null_map), inner: Some(inner) },
        ),
    }
}

/// Array column over `offsets` and `values`.
pub open spec fn array_node<'x>(
    offsets: &'x [u64],
    n_rows: usize,
    values: &'x sys::chc_column<'x>,
) -> sys::chc_column<'x> {
    sys::chc_column {
        layout: sys::CHC_COL_ARRAY,
        n_rows,
        payload: sys::chc_column_payload::array(
            sys::chc_column_array { offsets: Some(offsets), values: Some(values) },
        ),
    }
}

/// LowCardinality column over `keys` and `dict`.
pub open spec fn low_cardinality_node<'x>(
    key_size: i32,
    keys: &'x [u8],
    n_rows: usize,
    dict: &'x sys::chc_column<'x>,
) -> sys::chc_column<'x> {
    sys::chc_column {
        layout: sys::CHC_COL_LOW_CARDINALITY,
        n_rows,
        payload: sys::chc_column_payload::lc(
            sys::chc_column_lc {
                key_size,
                keys: Some(keys),
                dict: Some(dict),
                dict_n: dict.n_rows,
            },
        ),
    }
}

/// Tuple column over `children`, all with `n_rows` rows.
pub open spec fn tuple_node<'x>(
    children: &'x Vec<Option<&'x sys::chc_column<'x>>>,
    n_rows: usize,
) -> sys::chc_column<'x> {
    sys::chc_column {
        layout: sys::CHC_COL_TUPLE,
        n_rows,
        payload: sys::chc_column_payload::tuple(
            sys::chc_column_tuple {
                children: Some(children),
                arity: children@.len() as usize,
            },
        ),
    }
}

/// Outcome of a check of fixed-width data.
pub open spec fn fixed_check(data_len: nat, elem_size: nat, n_rows: nat) -> Result<
    (),
    error::ErrorView,
> {
    if elem_size == 0 {
        Err(error::usage_error("fixed column: elem_size must be nonzero"@))
    } else {
        match product_check(n_rows, elem_size, "fixed data"@) {
            Err(e) => Err(e),
            Ok(needed) => cover_check("fixed data"@, data_len, needed as nat),
        }
    }
}

/// Outcome of a check of array offsets against the rows of their elements.
pub open spec fn array_check(offsets: Seq<u64>, n_rows: nat, values_n: nat) -> Result<
    (),
    error::ErrorView,
> {
    match offsets_check(offsets, n_rows, "array"@) {
        Err(e) => Err(e),
        Ok(last) => length_check("array values"@, values_n, last as nat),
    }
}

/// First child from `i` on whose row count is not `n_rows`, or the number of
/// children when there is none.
pub open spec fn first_row_mismatch(
    children: Seq<ColumnBuilder<'_>>,
    n_rows: usize,
    i: nat,
) -> nat
    decreases children.len() - i,
{
    if i >= children.len() {
        children.len()
    } else if children[i as int]@.n_rows != n_rows {
        i
    } else {
        first_row_mismatch(children, n_rows, i + 1)
    }
}

/// Outcome of a check of tuple children and of the room for their references.
pub open spec fn tuple_check(children: Seq<ColumnBuilder<'_>>, room: nat) -> Result<
    (),
    error::ErrorView,
> {
    if children.len() == 0 {
        Err(error::usage_error("tuple column: needs at least one child"@))
    } else if room != children.len() {
        Err(
            error::usage_error(
                "tuple ptr scratch length mismatch: "@ + text::decimal(room) + " vs "@
                    + text::decimal(children.len()) + " children"@,
            ),
        )
    } else {
        let n_rows = children[0]@.n_rows;
        let i = first_row_mismatch(children, n_rows, 0);
        if i < children.len() {
            Err(
                error::usage_error(
                    "tuple child "@ + text::decimal(i) + " row count mismatch: "@ + text::decimal(
                        children[i as int]@.n_rows as nat,
                    ) + " vs "@ + text::decimal(n_rows as nat),
                ),
            )
        } else {
            Ok(())
        }
    }
}

/// Number of references that a tuple stores before it succeeds or fails.
pub open spec fn tuple_stored(children: Seq<ColumnBuilder<'_>>, room: nat) -> nat {
    if children.len() == 0 || room != children.len() {
        0
    } else {
        first_row_mismatch(children, children[0]@.n_rows, 0)
    }
}

/// Whether `result` is the builder of `node` where `check` succeeds, and the
/// error of `check` where it fails.
pub open spec fn built<'x>(
    result: Result<ColumnBuilder<'x>, Error>,
    check: Result<(), error::ErrorView>,
    node: sys::chc_column<'x>,
) -> bool {
    match result {
        Ok(builder) => check is Ok && builder@ == node,
        Err(e) => check == Err::<(), error::ErrorView>(e@),
    }
}

/// Says what `first_row_mismatch` finds.
proof fn lemma_first_row_mismatch(
    children: Seq<ColumnBuilder<'_>>,
    n_rows: usize,
    i: nat,
    found: nat,
)
    requires
        i <= found <= children.len(),
        found < children.len() ==> children[found as int]@.n_rows != n_rows,
        forall|j: int| i <= j < found ==> (#[trigger] children[j])@.n_rows == n_rows,
    ensures
        first_row_mismatch(children, n_rows, i) == found,
    decreases found - i,
{
    if i < found {
        assert(children[i as int]@.n_rows == n_rows);
        lemma_first_row_mismatch(children, n_rows, i + 1, found);
    }
}

/// Column descriptor over borrowed data.
///
/// Create leaf columns with [`fixed`](Self::fixed) or [`string`](Self::string).
/// Create composite columns with [`nullable`](Self::nullable),
/// [`array`](Self::array), [`low_cardinality`](Self::low_cardinality), or
/// [`tuple`](Self::tuple). Composite builders borrow their child builders:
///
/// ```ignore
/// let leaf = ColumnBuilder::fixed(values, 4, 3)?;
/// let nullable = leaf.nullable(null_map)?;
/// let array = nullable.array(offsets, 2)?;
/// block.append("v", ty.view(), &array)?;
/// ```
pub struct ColumnBuilder<'a> {
    node: sys::chc_column<'a>,
}

impl<'a> View for ColumnBuilder<'a> {
    type V = sys::chc_column<'a>;

    closed spec fn view(&self) -> sys::chc_column<'a> {
        self.node
    }
}

impl<'a> ColumnBuilder<'a> {
    #[verifier::type_invariant]
    closed spec fn inv(self) -> bool {
        self.node.wf() && self.node.valid()
    }

    /// Creates a fixed-width column.
    ///
    /// `data` must contain at least `n_rows * elem_size` little-endian bytes.
    /// Additional bytes are ignored.
    pub fn fixed(data: &'a [u8], elem_size: usize, n_rows: usize) -> (result: Result<Self, Error>)
        ensures
            built(
                result,
                fixed_check(data@.len(), elem_size as nat, n_rows as nat),
                fixed_node(data, elem_size, n_rows),
            ),
    {
        if elem_size == 0 {
            return Err(Error::usage("fixed column: elem_size must be nonzero".to_owned()));
        }
        let needed: usize = match checked_len(n_rows, elem_size, "fixed data") {
            Ok(n) => n,
            Err(e) => {
                return Err(e);
            },
        };
        match require_covers("fixed data", data.len(), needed) {
            Ok(()) => {},
            Err(e) => {
                return Err(e);
            },
        }
        Ok(
            ColumnBuilder {
                node: sys::chc_column {
                    layout: sys::CHC_COL_FIXED,
                    n_rows,
                    payload: sys::chc_column_payload::fixed(
                        sys::chc_column_fixed { data: Some(data), elem_size },
                    ),
                },
            },
        )
    }

    /// Creates a string column.
    ///
    /// `offsets[i]` contains exclusive end of row `i` in `data`, in host byte
    /// order. Same layout supports string-encoded JSON and LowCardinality
    /// dictionaries.
    pub fn string(offsets: &'a [u64], data: &'a [u8], n_rows: usize) -> (result: Result<
        Self,
        Error,
    >)
        ensures
            built(
                result,
                string_check(offsets@, data@.len(), n_rows as nat, "string"@),
                string_node(offsets, data, n_rows),
            ),
    {
        match validate_string(offsets, data.len(), n_rows, "string") {
            Ok(()) => {},
            Err(e) => {
                return Err(e);
            },
        }
        let bytes: usize = if n_rows == 0 {
            0
        } else {
            offsets[n_rows - 1] as usize
        };
        Ok(
            ColumnBuilder {
                node: sys::chc_column {
                    layout: sys::CHC_COL_STRING,
                    n_rows,
                    payload: sys::chc_column_payload::str_(
                        sys::chc_column_str { data: Some(data), offsets: Some(offsets), bytes },
                    ),
                },
            },
        )
    }

    /// Creates a nullable column around this column.
    ///
    /// `null_map[i] == 1` marks row `i` as null. Map length must equal inner
    /// row count. Inner column must contain a value for every row.
    pub fn nullable<'r>(&'r self, null_map: &'r [u8]) -> (result: Result<ColumnBuilder<'r>, Error>)
        ensures
            built(
                result,
                length_check("nullable null map"@, null_map@.len(), self@.n_rows as nat),
                nullable_node(null_map, &self@),
            ),
    {
        proof {
            use_type_invariant(self);
        }
        match require_len("nullable null map", null_map.len(), self.n_rows()) {
            Ok(()) => {},
            Err(e) => {
                return Err(e);
            },
        }
        Ok(
            ColumnBuilder {
                node: sys::chc_column {
                    layout: sys::CHC_COL_NULLABLE,
                    n_rows: self.node.n_rows,
                    payload: sys::chc_column_payload::nullable(
                        sys::chc_column_nullable {
                            null_map: Some(null_map),
                            inner: Some(&self.node),
                        },
                    ),
                },
            },
        )
    }

    /// Creates an array column using this column as element storage.
    ///
    /// `offsets[i]` contains cumulative exclusive end of row `i`. Final offset
    /// must equal row count of element column.
    pub fn array<'r>(&'r self, offsets: &'r [u64], n_rows: usize) -> (result: Result<
        ColumnBuilder<'r>,
        Error,
    >)
        ensures
            built(
                result,
                array_check(offsets@, n_rows as nat, self@.n_rows as nat),
                array_node(offsets, n_rows, &self@),
            ),
    {
        proof {
            use_type_invariant(self);
        }
        let last: usize = match validate_offsets(offsets, n_rows, "array") {
            Ok(n) => n,
            Err(e) => {
                return Err(e);
            },
        };
        match require_len("array values", self.n_rows(), last) {
            Ok(()) => {},
            Err(e) => {
                return Err(e);
            },
        }
        proof {
            lemma_no_descent(offsets@, 0);
            lemma_neighbours_in_order(offsets@);
            assert(offsets@.take(n_rows as int) =~= offsets@);
        }
        Ok(
            ColumnBuilder {
                node: sys::chc_column {
                    layout: sys::CHC_COL_ARRAY,
                    n_rows,
                    payload: sys::chc_column_payload::array(
                        sys::chc_column_array { offsets: Some(offsets), values: Some(&self.node) },
                    ),
                },
            },
        )
    }

    /// Creates a LowCardinality column using this column as dictionary.
    ///
    /// `key_size` must be 1, 2, 4, or 8 bytes. Each key indexes dictionary.
    /// `LowCardinality(Nullable(T))` uses dictionary entry zero and key zero
    /// for null rows.
    pub fn low_cardinality<'r>(
        &'r self,
        key_size: i32,
        keys: &'r [u8],
        n_rows: usize,
    ) -> (result: Result<ColumnBuilder<'r>, Error>)
        ensures
            built(
                result,
                keys_check(keys@, key_size as int, n_rows as nat, self@.n_rows as nat),
                low_cardinality_node(key_size, keys, n_rows, &self@),
            ),
    {
        proof {
            use_type_invariant(self);
        }
        match validate_low_cardinality_keys(keys, key_size, n_rows, self.n_rows()) {
            Ok(()) => {},
            Err(e) => {
                return Err(e);
            },
        }
        proof {
            lemma_all_keys_in_range(
                keys@,
                key_size as nat,
                n_rows as nat,
                self@.n_rows as nat,
                0,
            );
            assert(keys@.take(n_rows * key_size) =~= keys@);
        }
        Ok(
            ColumnBuilder {
                node: sys::chc_column {
                    layout: sys::CHC_COL_LOW_CARDINALITY,
                    n_rows,
                    payload: sys::chc_column_payload::lc(
                        sys::chc_column_lc {
                            key_size,
                            keys: Some(keys),
                            dict: Some(&self.node),
                            dict_n: self.node.n_rows,
                        },
                    ),
                },
            },
        )
    }

    /// Creates a tuple column from `children`.
    ///
    /// All children must have same row count. `ptrs` provides storage for
    /// references to them and must have same length as `children`. Returned
    /// builder borrows both. Maps and geographic types use tuple storage
    /// internally.
    pub fn tuple<'r>(
        children: &'r [ColumnBuilder<'a>],
        ptrs: &'r mut Vec<Option<&'r sys::chc_column<'r>>>,
    ) -> (result: Result<ColumnBuilder<'r>, Error>)
        ensures
            built(
                result,
                tuple_check(children@, old(ptrs)@.len()),
                tuple_node(final(ptrs), children@[0]@.n_rows),
            ),
            final(ptrs)@.len() == old(ptrs)@.len(),
            forall|i: int|
                0 <= i < final(ptrs)@.len() ==> #[trigger] final(ptrs)@[i] == if i < tuple_stored(
                    children@,
                    old(ptrs)@.len(),
                ) {
                    Some(&children@[i]@)
                } else {
                    old(ptrs)@[i]
                },
    {
        if children.len() == 0 {
            return Err(Error::usage("tuple column: needs at least one child".to_owned()));
        }
        if ptrs.len() != children.len() {
            let mut message = "tuple ptr scratch length mismatch: ".to_owned();
            message.append(text::decimal_text(ptrs.len() as u64).as_str());
            message.append(" vs ");
            message.append(text::decimal_text(children.len() as u64).as_str());
            message.append(" children");
            return Err(Error::usage(message));
        }
        let n_rows: usize = children[0].n_rows();
        let mut i: usize = 0;
        while i < children.len()
            invariant
                i <= children@.len(),
                0 < children@.len(),
                ptrs@.len() == children@.len(),
                old(ptrs)@.len() == children@.len(),
                n_rows == children@[0]@.n_rows,
                forall|j: int| 0 <= j < i ==> (#[trigger] children@[j])@.n_rows == n_rows,
                forall|j: int|
                    0 <= j < i ==> #[trigger] ptrs@[j] == Some(&children@[j]@)
                        && children@[j]@.wf() && children@[j]@.valid(),
                forall|j: int| i <= j < ptrs@.len() ==> #[trigger] ptrs@[j] == old(ptrs)@[j],
            decreases children@.len() - i,
        {
            let child = &children[i];
            proof {
                use_type_invariant(child);
            }
            if child.n_rows() != n_rows {
                proof {
                    lemma_first_row_mismatch(children@, n_rows, 0, i as nat);
                }
                let mut message = "tuple child ".to_owned();
                message.append(text::decimal_text(i as u64).as_str());
                message.append(" row count mismatch: ");
                message.append(text::decimal_text(child.n_rows() as u64).as_str());
                message.append(" vs ");
                message.append(text::decimal_text(n_rows as u64).as_str());
                return Err(Error::usage(message));
            }
            ptrs[i] = Some(&child.node);
            i = i + 1;
        }
        proof {
            lemma_first_row_mismatch(children@, n_rows, 0, i as nat);
        }
        Ok(
            ColumnBuilder {
                node: sys::chc_column {
                    layout: sys::CHC_COL_TUPLE,
                    n_rows,
                    payload: sys::chc_column_payload::tuple(
                        sys::chc_column_tuple { children: Some(ptrs), arity: children.len() },
                    ),
                },
            },
        )
    }

    /// Returns row count for this column.
    pub fn n_rows(&self) -> (n: usize)
        ensures
            n == self@.n_rows,
    {
        self.node.n_rows
    }

    /// Column record behind this builder.
    pub fn as_raw(&self) -> (raw: &sys::chc_column<'a>)
        ensures
            *raw == self@,
            raw.wf(),
            raw.valid(),
    {
        proof {
            use_type_invariant(self);
        }
        &self.node
    }
}

/// Outcome of a check of a column against the row count of the columns before
/// it.
pub open spec fn append_check(previous: Option<usize>, n_rows: usize) -> Result<
    (),
    error::ErrorView,
> {
    match previous {
        Some(rows) if rows != n_rows => Err(
            error::usage_error(
                "block_builder: row count mismatch ("@ + text::decimal(rows as nat) + " vs "@
                    + text::decimal(n_rows as nat) + ")"@,
            ),
        ),
        _ => Ok(()),
    }
}

/// Entry of a column `col` that is called `name` and has type `ty`.
pub open spec fn block_col<'x>(
    name: &'x str,
    ty: TypeRef<'x>,
    col: &'x sys::chc_column<'x>,
) -> sys::chc_block_col<'x> {
    sys::chc_block_col { name, name_len: name.len(), type_: ty.raw, col }
}

/// What a [`BlockBuilder`] holds.
#[verifier::ext_equal]
pub struct BlockBuilderView<'a> {
    pub cols: Seq<sys::chc_block_col<'a>>,
    pub n_rows: Option<usize>,
}

/// Block without columns.
pub open spec fn empty_block<'a>() -> BlockBuilderView<'a> {
    BlockBuilderView { cols: Seq::empty(), n_rows: None }
}

impl<'a> BlockBuilderView<'a> {
    /// Whether every column has the row count of the block, which the first
    /// column sets.
    pub open spec fn wf(self) -> bool {
        &&& self.n_rows is None <==> self.cols.len() == 0
        &&& forall|i: int|
            0 <= i < self.cols.len() ==> self.n_rows == Some(
                (#[trigger] self.cols[i]).col.n_rows,
            )
    }

    /// Whether `raw` is the record of this block: its present columns and their
    /// totals. A block without columns has no rows.
    pub open spec fn is_record(self, raw: sys::chc_block_builder<'_>) -> bool {
        &&& raw.cols@ == self.cols
        &&& raw.n_cols == self.cols.len()
        &&& raw.n_rows == match self.n_rows {
            Some(rows) => rows,
            None => 0,
        }
    }

    /// State after an attempt to add `col`.
    pub open spec fn appended(self, col: sys::chc_block_col<'a>) -> BlockBuilderView<'a> {
        if append_check(self.n_rows, col.col.n_rows) is Ok {
            BlockBuilderView { cols: self.cols.push(col), n_rows: Some(col.col.n_rows) }
        } else {
            self
        }
    }
}

/// Native block assembled from borrowed column data.
pub struct BlockBuilder<'a> {
    cols: Vec<sys::chc_block_col<'a>>,
    n_rows: Option<usize>,
}

impl<'a> View for BlockBuilder<'a> {
    type V = BlockBuilderView<'a>;

    closed spec fn view(&self) -> BlockBuilderView<'a> {
        BlockBuilderView { cols: self.cols@, n_rows: self.n_rows }
    }
}

impl<'a> Default for BlockBuilder<'a> {
    fn default() -> (builder: Self)
        ensures
            builder@ == empty_block::<'a>(),
            builder@.wf(),
    {
        BlockBuilder::new()
    }
}

impl<'a> BlockBuilder<'a> {
    #[verifier::type_invariant]
    closed spec fn inv(self) -> bool {
        self@.wf()
    }

    /// Creates an empty block. First appended column sets row count.
    pub fn new() -> (builder: Self)
        ensures
            builder@ == empty_block::<'a>(),
            builder@.wf(),
    {
        BlockBuilder { cols: Vec::new(), n_rows: None }
    }

    /// Adds a named column with ClickHouse type `ty`.
    ///
    /// Column must match `ty` and use same row count as other columns. Builder
    /// borrows column and its data until block is written.
    pub fn append(
        &mut self,
        name: &'a str,
        ty: TypeRef<'a>,
        col: &'a ColumnBuilder<'a>,
    ) -> (result: Result<(), Error>)
        ensures
            error::outcome(result) == append_check(old(self)@.n_rows, col@.n_rows),
            final(self)@ == old(self)@.appended(block_col(name, ty, &col@)),
            final(self)@.wf(),
    {
        self.push(name, ty, col.as_raw(), col.n_rows())
    }

    /// Adds a named column of `n_rows` rows.
    pub fn push(
        &mut self,
        name: &'a str,
        ty: TypeRef<'a>,
        col: &'a sys::chc_column<'a>,
        n_rows: usize,
    ) -> (result: Result<(), Error>)
        requires
            n_rows == col.n_rows,
        ensures
            error::outcome(result) == append_check(old(self)@.n_rows, n_rows),
            final(self)@ == old(self)@.appended(block_col(name, ty, col)),
            final(self)@.wf(),
    {
        proof {
            use_type_invariant(&*self);
        }
        match self.n_rows {
            Some(previous) => {
                if previous != n_rows {
                    let mut message = "block_builder: row count mismatch (".to_owned();
                    message.append(text::decimal_text(previous as u64).as_str());
                    message.append(" vs ");
                    message.append(text::decimal_text(n_rows as u64).as_str());
                    message.append(")");
                    return Err(Error::usage(message));
                }
            },
            None => {},
        }
        let mut taken = BlockBuilder::new();
        core::mem::swap(&mut taken, self);
        let mut cols = taken.cols;
        cols.push(sys::chc_block_col { name, name_len: name.len(), type_: ty.raw, col });
        *self = BlockBuilder { cols, n_rows: Some(n_rows) };
        Ok(())
    }

    /// Adds a named column backed by a decoded [`Column`].
    ///
    /// Re-emits a decoded column without visiting its values. Builder borrows
    /// column tree, so owner of the column data must outlive builder. `ty`
    /// describes column as writer must encode it; writer rejects a tree that
    /// does not match.
    pub fn append_column(
        &mut self,
        name: &'a str,
        ty: TypeRef<'a>,
        col: Column<'a>,
    ) -> (result: Result<(), Error>)
        ensures
            error::outcome(result) == append_check(old(self)@.n_rows, col@.n_rows),
            final(self)@ == old(self)@.appended(block_col(name, ty, &col@)),
            final(self)@.wf(),
    {
        self.push(name, ty, col.as_raw(), col.n_rows())
    }

    /// Columns in the order in which they were added.
    pub fn columns(&self) -> (cols: &[sys::chc_block_col<'a>])
        ensures
            cols@ == self@.cols,
            self@.wf(),
    {
        proof {
            use_type_invariant(self);
        }
        self.cols.as_slice()
    }

    /// Record of the block, with its present columns.
    pub fn as_raw(&self) -> (raw: sys::chc_block_builder<'_>)
        ensures
            self@.is_record(raw),
            self@.wf(),
    {
        proof {
            use_type_invariant(self);
        }
        let n_rows: usize = match self.n_rows {
            Some(rows) => rows,
            None => 0,
        };
        sys::chc_block_builder { cols: self.cols.as_slice(), n_cols: self.cols.len(), n_rows }
    }
}

/// After an attempt to add a column, accepted or refused, the record of a block
/// holds its present columns, counts them, and has the row count of each.
pub proof fn law_append_keeps_totals<'a>(
    block: BlockBuilderView<'a>,
    col: sys::chc_block_col<'a>,
    raw: sys::chc_block_builder<'a>,
    i: int,
)
    requires
        block.wf(),
        block.appended(col).is_record(raw),
    ensures
        block.appended(col).wf(),
        raw.cols@ == block.appended(col).cols,
        raw.n_cols == raw.cols@.len(),
        0 <= i < raw.cols@.len() ==> block.appended(col).n_rows == Some(raw.n_rows)
            && raw.cols@[i].col.n_rows == raw.n_rows,
{
    let after = block.appended(col);
    assert forall|i: int| 0 <= i < after.cols.len() implies after.n_rows == Some(
        (#[trigger] after.cols[i]).col.n_rows,
    ) by {
        if i < block.cols.len() {
            assert(block.n_rows == Some(block.cols[i].col.n_rows));
        }
    }
}

/// The first column is always accepted, and a later one exactly where its row
/// count is the one of the block.
pub proof fn law_append_accepts_equal_row_counts<'a>(
    block: BlockBuilderView<'a>,
    col: sys::chc_block_col<'a>,
)
    requires
        block.wf(),
    ensures
        append_check(block.n_rows, col.col.n_rows) is Ok <==> block.cols.len() == 0
            || block.cols[0].col.n_rows == col.col.n_rows,
{
}

/// An attempt to add a column leaves the columns before it as they were, and a
/// refused one changes nothing.
pub proof fn law_append_keeps_columns<'a>(
    block: BlockBuilderView<'a>,
    col: sys::chc_block_col<'a>,
)
    ensures
        block.appended(col).cols.take(block.cols.len() as int) == block.cols,
        append_check(block.n_rows, col.col.n_rows) is Err ==> block.appended(col) == block,
        append_check(block.n_rows, col.col.n_rows) is Ok ==> block.appended(col).cols.last()
            == col,
{
    assert(block.appended(col).cols.take(block.cols.len() as int) =~= block.cols);
}

/// A fixed-width column that a builder makes gives back the prefix of its data
/// that its rows take.
pub proof fn law_fixed_reads_back(data: &[u8], elem_size: usize, n_rows: usize)
    requires
        fixed_check(data@.len(), elem_size as nat, n_rows as nat) is Ok,
    ensures
        fixed_node(data, elem_size, n_rows).spec_fixed() == Some(
            (elem_size, data@.take(n_rows * elem_size)),
        ),
        fixed_node(data, elem_size, n_rows).n_rows == n_rows,
        fixed_node(data, elem_size, n_rows).wf(),
        fixed_node(data, elem_size, n_rows).valid(),
{
}

/// A string column that a builder makes gives back its offsets and the prefix
/// of its data that they cover.
pub proof fn law_string_reads_back(offsets: &[u64], data: &[u8], n_rows: usize)
    requires
        string_check(offsets@, data@.len(), n_rows as nat, "string"@) is Ok,
    ensures
        string_node(offsets, data, n_rows).spec_string() == Some(
            (offsets@, data@.take(column::final_offset(offsets@) as int)),
        ),
        string_node(offsets, data, n_rows).n_rows == n_rows,
        string_node(offsets, data, n_rows).wf(),
        string_node(offsets, data, n_rows).valid(),
        column::nondecreasing(offsets@),
{
    lemma_no_descent(offsets@, 0);
    lemma_neighbours_in_order(offsets@);
    assert(offsets@.take(n_rows as int) =~= offsets@);
}

/// A nullable column that a builder makes gives back its map and its inner
/// column, which have the same row count.
pub proof fn law_nullable_reads_back(null_map: &[u8], inner: &sys::chc_column<'_>)
    requires
        inner.wf(),
        inner.valid(),
        length_check("nullable null map"@, null_map@.len(), inner.n_rows as nat) is Ok,
    ensures
        nullable_node(null_map, inner).spec_null_map() == Some(null_map@),
        nullable_node(null_map, inner).spec_nullable_inner() == Some(*inner),
        nullable_node(null_map, inner).n_rows == inner.n_rows,
        nullable_node(null_map, inner).wf(),
        nullable_node(null_map, inner).valid(),
{
    assert(null_map@.take(inner.n_rows as int) =~= null_map@);
}

/// An array column that a builder makes gives back its offsets and its element
/// column, and the offsets use up exactly the elements.
pub proof fn law_array_reads_back(offsets: &[u64], n_rows: usize, values: &sys::chc_column<'_>)
    requires
        values.wf(),
        values.valid(),
        array_check(offsets@, n_rows as nat, values.n_rows as nat) is Ok,
    ensures
        array_node(offsets, n_rows, values).spec_array_offsets() == Some(offsets@),
        array_node(offsets, n_rows, values).spec_array_values() == Some(*values),
        column::final_offset(offsets@) == values.n_rows,
        array_node(offsets, n_rows, values).n_rows == n_rows,
        array_node(offsets, n_rows, values).wf(),
        array_node(offsets, n_rows, values).valid(),
{
    lemma_no_descent(offsets@, 0);
    lemma_neighbours_in_order(offsets@);
    assert(offsets@.take(n_rows as int) =~= offsets@);
}

/// A LowCardinality column that a builder makes gives back its keys and its
/// dictionary.
pub proof fn law_low_cardinality_reads_back(
    key_size: i32,
    keys: &[u8],
    n_rows: usize,
    dict: &sys::chc_column<'_>,
)
    requires
        dict.wf(),
        dict.valid(),
        keys_check(keys@, key_size as int, n_rows as nat, dict.n_rows as nat) is Ok,
    ensures
        low_cardinality_node(key_size, keys, n_rows, dict).spec_low_cardinality() == Some(
            (key_size as usize, keys@, *dict),
        ),
        low_cardinality_node(key_size, keys, n_rows, dict).n_rows == n_rows,
        low_cardinality_node(key_size, keys, n_rows, dict).wf(),
        low_cardinality_node(key_size, keys, n_rows, dict).valid(),
{
    lemma_all_keys_in_range(keys@, key_size as nat, n_rows as nat, dict.n_rows as nat, 0);
    assert(keys@.take(n_rows * key_size) =~= keys@);
}

/// A tuple column over well-formed, valid children gives them back in order,
/// and has the rows that it was given.
pub proof fn law_tuple_reads_back(
    children: &Vec<Option<&sys::chc_column<'_>>>,
    n_rows: usize,
    i: int,
)
    requires
        children@.len() <= usize::MAX,
        forall|j: int|
            0 <= j < children@.len() ==> (#[trigger] children@[j] matches Some(child) && child.wf()
                && child.valid()),
        0 <= i < children@.len(),
    ensures
        tuple_node(children, n_rows).spec_tuple_arity() == children@.len(),
        tuple_node(children, n_rows).spec_tuple_child(i) == Some(*children@[i]->0),
        tuple_node(children, n_rows).n_rows == n_rows,
        tuple_node(children, n_rows).wf(),
        tuple_node(children, n_rows).valid(),
{
    assert(children@[i] is Some);
}

/// Offsets are accepted exactly where there is one for each row, none is below
/// the one before it, and the final one is a length. The final one is given.
pub proof fn law_offsets_accepted(offsets: Seq<u64>, n_rows: nat, label: Seq<char>)
    ensures
        offsets_check(offsets, n_rows, label) is Ok <==> {
            &&& offsets.len() == n_rows
            &&& column::nondecreasing(offsets)
            &&& column::final_offset(offsets) <= usize::MAX
        },
        offsets_check(offsets, n_rows, label) matches Ok(last) ==> last == column::final_offset(
            offsets,
        ),
{
    lemma_no_descent(offsets, 0);
    if first_descent(offsets, 0) == offsets.len() {
        lemma_neighbours_in_order(offsets);
    } else if column::nondecreasing(offsets) {
        lemma_first_descent(offsets, 0, offsets.len());
    }
}

/// A string column is accepted exactly where its offsets are and its data
/// reaches the final one.
pub proof fn law_string_accepted(
    offsets: Seq<u64>,
    data_len: nat,
    n_rows: nat,
    label: Seq<char>,
)
    requires
        data_len <= usize::MAX,
    ensures
        string_check(offsets, data_len, n_rows, label) is Ok <==> {
            &&& offsets.len() == n_rows
            &&& column::nondecreasing(offsets)
            &&& column::final_offset(offsets) <= data_len
        },
{
    law_offsets_accepted(offsets, n_rows, label);
}

/// An array column is accepted exactly where its offsets are and the final one
/// is the row count of its elements.
pub proof fn law_array_accepted(offsets: Seq<u64>, n_rows: nat, values_n: nat)
    requires
        values_n <= usize::MAX,
    ensures
        array_check(offsets, n_rows, values_n) is Ok <==> {
            &&& offsets.len() == n_rows
            &&& column::nondecreasing(offsets)
            &&& column::final_offset(offsets) == values_n
        },
{
    law_offsets_accepted(offsets, n_rows, "array"@);
}

/// Keys are accepted exactly where they have a width that keys can have, there
/// is one for each row, and each is below the row count of the dictionary.
pub proof fn law_keys_accepted(keys: Seq<u8>, key_size: int, n_rows: nat, dict_n: nat)
    requires
        keys.len() <= usize::MAX,
    ensures
        keys_check(keys, key_size, n_rows, dict_n) is Ok <==> {
            &&& column::is_key_size(key_size)
            &&& keys.len() == n_rows * key_size
            &&& column::keys_below(keys, key_size as nat, n_rows, dict_n)
        },
{
    if column::is_key_size(key_size) {
        let size = key_size as nat;
        lemma_all_keys_in_range(keys, size, n_rows, dict_n, 0);
        if column::keys_below(keys, size, n_rows, dict_n) {
            lemma_first_key_out_of_range(keys, size, n_rows, dict_n, 0, n_rows);
        }
    }
}

/// Children without a mismatch all have one row count.
proof fn lemma_no_row_mismatch(children: Seq<ColumnBuilder<'_>>, n_rows: usize, i: nat)
    ensures
        first_row_mismatch(children, n_rows, i) <= children.len(),
        first_row_mismatch(children, n_rows, i) == children.len() ==> forall|j: int|
            i <= j < children.len() ==> (#[trigger] children[j])@.n_rows == n_rows,
    decreases children.len() - i,
{
    if i < children.len() && children[i as int]@.n_rows == n_rows {
        lemma_no_row_mismatch(children, n_rows, i + 1);
    }
}

/// Tuple children are accepted exactly where there is at least one, there is
/// room for a reference to each, and all have the row count of the first.
pub proof fn law_tuple_accepted(children: Seq<ColumnBuilder<'_>>, room: nat)
    ensures
        tuple_check(children, room) is Ok <==> {
            &&& children.len() > 0
            &&& room == children.len()
            &&& forall|i: int|
                0 <= i < children.len() ==> (#[trigger] children[i])@.n_rows
                    == children[0]@.n_rows
        },
{
    if children.len() > 0 {
        let n_rows = children[0]@.n_rows;
        lemma_no_row_mismatch(children, n_rows, 0);
        if forall|i: int|
            0 <= i < children.len() ==> (#[trigger] children[i])@.n_rows == n_rows {
            lemma_first_row_mismatch(children, n_rows, 0, children.len());
        }
    }
}

/// An accepted column is stored behind the others as the caller gave it: the
/// name and its length, the type and the column.
pub proof fn law_append_stores_what_was_given<'a>(
    block: BlockBuilderView<'a>,
    name: &'a str,
    ty: TypeRef<'a>,
    col: &'a sys::chc_column<'a>,
)
    requires
        append_check(block.n_rows, col.n_rows) is Ok,
        name.spec_bytes().len() <= usize::MAX,
    ensures
        block.appended(block_col(name, ty, col)).cols.len() == block.cols.len() + 1,
        block.appended(block_col(name, ty, col)).cols.last().name@ == name@,
        block.appended(block_col(name, ty, col)).cols.last().name_len == vstd::utf8::encode_utf8(
            name@,
        ).len(),
        *block.appended(block_col(name, ty, col)).cols.last().type_ == *ty.raw,
        *block.appended(block_col(name, ty, col)).cols.last().col == *col,
{
}

/// Whether `e` reports misuse with `message`.
pub open spec fn is_misuse(e: Error, message: Seq<char>) -> bool {
    &&& e.kind == error::ErrorKind::Usage
    &&& e.message@ == message
    &&& e.server_code == 0 && e.server_name@.len() == 0
}

/// Whether no offset is below the one before it.
pub open spec fn ascends(offsets: Seq<u64>) -> bool {
    forall|i: int, j: int| 0 <= i <= j < offsets.len() ==> offsets[i] <= offsets[j]
}

/// A builder stands for the record that it hands over.
pub proof fn law_builder_hands_over_its_record<'a>(
    builder: ColumnBuilder<'a>,
    raw: &sys::chc_column<'a>,
    n: usize,
)
    requires
        call_ensures(ColumnBuilder::as_raw, (&builder,), raw),
        call_ensures(ColumnBuilder::n_rows, (&builder,), n),
    ensures
        *raw == builder@,
        n == raw.n_rows,
{
}

/// A fixed-width column is built exactly where its values have a width and the
/// data holds one for each row. It has the rows, the width and the data that
/// were given.
pub proof fn law_fixed_column_is_what_was_given<'a>(
    data: &'a [u8],
    elem_size: usize,
    n_rows: usize,
    result: Result<ColumnBuilder<'a>, Error>,
)
    requires
        call_ensures(ColumnBuilder::fixed, (data, elem_size, n_rows), result),
        data@.len() <= usize::MAX,
    ensures
        result is Ok <==> elem_size > 0 && n_rows * elem_size <= data@.len(),
        result matches Ok(builder) ==> {
            &&& builder@.layout == sys::CHC_COL_FIXED
            &&& builder@.n_rows == n_rows
            &&& builder@.payload matches sys::chc_column_payload::fixed(p)
            &&& p.data == Some(data)
            &&& p.elem_size == elem_size
        },
        result matches Err(e) ==> if elem_size == 0 {
            is_misuse(e, "fixed column: elem_size must be nonzero"@)
        } else if n_rows * elem_size > usize::MAX {
            is_misuse(
                e,
                "fixed data length overflow: "@ + text::decimal(n_rows as nat) + " * "@
                    + text::decimal(elem_size as nat),
            )
        } else {
            is_misuse(
                e,
                "fixed data too short: got "@ + text::decimal(data@.len()) + ", need at least "@
                    + text::decimal((n_rows * elem_size) as nat),
            )
        },
{
    assert(n_rows * elem_size >= 0) by (nonlinear_arith);
    lemma_labels();
}

/// Labels of messages, put together.
proof fn lemma_labels()
    ensures
        "fixed data"@ + " too short: got "@ == "fixed data too short: got "@,
        "fixed data"@ + " length overflow: "@ == "fixed data length overflow: "@,
        "string"@ + " offsets"@ == "string offsets"@,
        "array"@ + " offsets"@ == "array offsets"@,
        "string"@ + " data"@ == "string data"@,
{
    reveal_strlit("fixed data");
    reveal_strlit(" too short: got ");
    reveal_strlit("fixed data too short: got ");
    reveal_strlit(" length overflow: ");
    reveal_strlit("fixed data length overflow: ");
    reveal_strlit("string");
    reveal_strlit("array");
    reveal_strlit(" offsets");
    reveal_strlit("string offsets");
    reveal_strlit("array offsets");
    reveal_strlit(" data");
    reveal_strlit("string data");
    assert("fixed data"@ + " too short: got "@ =~= "fixed data too short: got "@);
    assert("fixed data"@ + " length overflow: "@ =~= "fixed data length overflow: "@);
    assert("string"@ + " offsets"@ =~= "string offsets"@);
    assert("array"@ + " offsets"@ =~= "array offsets"@);
    assert("string"@ + " data"@ =~= "string data"@);
}

/// Whether `e` refuses offsets under the name `label`: for their number, or for
/// the first that is below the one before it.
pub open spec fn refuses_offsets(
    e: Error,
    label: Seq<char>,
    offsets: Seq<u64>,
    n_rows: nat,
) -> bool {
    if offsets.len() != n_rows {
        is_misuse(
            e,
            label + " offsets"@ + " length mismatch: got "@ + text::decimal(offsets.len())
                + ", expected "@ + text::decimal(n_rows),
        )
    } else if !ascends(offsets) {
        exists|row: int|
            {
                &&& 0 < row < offsets.len()
                &&& #[trigger] offsets[row] < offsets[row - 1]
                &&& ascends(offsets.take(row))
                &&& is_misuse(
                    e,
                    label + " offsets not monotonic at row "@ + text::decimal(row as nat) + ": "@
                        + text::decimal(offsets[row] as nat) + " < "@ + text::decimal(
                        offsets[row - 1] as nat,
                    ),
                )
            }
    } else {
        is_misuse(
            e,
            label + " final offset does not fit usize: "@ + text::decimal(offsets.last() as nat),
        )
    }
}

/// The first descent is one, and what precedes it ascends.
proof fn lemma_found_descent(offsets: Seq<u64>, row: nat)
    ensures
        row <= offsets.len() ==> row <= first_descent(offsets, row) <= offsets.len(),
        first_descent(offsets, row) < offsets.len() ==> first_descent(offsets, row) > 0 && offsets[
        first_descent(offsets, row) as int] < offsets[first_descent(offsets, row) - 1],
        forall|i: int|
            row <= i < first_descent(offsets, row) && 0 < i ==> #[trigger] offsets[i] >= offsets[i
                - 1],
    decreases offsets.len() - row,
{
    if row < offsets.len() && !(row > 0 && offsets[row as int] < offsets[row - 1]) {
        lemma_found_descent(offsets, row + 1);
    }
}

/// An error of a check of offsets refuses them.
proof fn lemma_refuses_offsets(offsets: Seq<u64>, n_rows: nat, label: Seq<char>, e: Error)
    requires
        offsets_check(offsets, n_rows, label) == Err::<usize, error::ErrorView>(e@),
    ensures
        refuses_offsets(e, label, offsets, n_rows),
{
    law_offsets_accepted(offsets, n_rows, label);
    if offsets.len() == n_rows {
        lemma_found_descent(offsets, 0);
        let row = first_descent(offsets, 0) as int;
        if row < offsets.len() {
            let before = offsets.take(row);
            assert forall|i: int| 0 < i < before.len() implies #[trigger] before[i] >= before[i
                - 1] by {
                assert(offsets[i] >= offsets[i - 1]);
            }
            lemma_neighbours_in_order(before);
            assert(ascends(before));
            assert(offsets[row] < offsets[row - 1]);
            assert(!ascends(offsets));
        } else {
            lemma_no_descent(offsets, 0);
            lemma_neighbours_in_order(offsets);
            assert(ascends(offsets));
        }
    }
}

/// A string column is built exactly where there is an offset for each row, none
/// is below the one before it, and the data reaches the last one. It has the
/// rows, the offsets and the data that were given, and ends at the last offset.
pub proof fn law_string_column_is_what_was_given<'a>(
    offsets: &'a [u64],
    data: &'a [u8],
    n_rows: usize,
    result: Result<ColumnBuilder<'a>, Error>,
)
    requires
        call_ensures(ColumnBuilder::string, (offsets, data, n_rows), result),
        data@.len() <= usize::MAX,
    ensures
        result is Ok <==> {
            &&& offsets@.len() == n_rows
            &&& ascends(offsets@)
            &&& offsets@.len() > 0 ==> offsets@[n_rows - 1] <= data@.len()
        },
        result matches Ok(builder) ==> {
            &&& builder@.layout == sys::CHC_COL_STRING
            &&& builder@.n_rows == n_rows
            &&& builder@.payload matches sys::chc_column_payload::str_(p)
            &&& p.offsets == Some(offsets)
            &&& p.data == Some(data)
            &&& n_rows == 0 ==> p.bytes == 0
            &&& n_rows > 0 ==> p.bytes == offsets@[n_rows - 1]
        },
        result matches Err(e) ==> refuses_offsets(e, "string"@, offsets@, n_rows as nat) || (
        offsets@.len() == n_rows && ascends(offsets@) && is_misuse(
            e,
            "string data"@ + " too short: got "@ + text::decimal(data@.len())
                + ", need at least "@ + text::decimal(offsets@.last() as nat),
        )),
{
    lemma_labels();
    law_string_accepted(offsets@, data@.len(), n_rows as nat, "string"@);
    law_offsets_accepted(offsets@, n_rows as nat, "string"@);
    assert(ascends(offsets@) <==> column::nondecreasing(offsets@));
    if let Err(e) = result {
        if offsets_check(offsets@, n_rows as nat, "string"@) is Err {
            lemma_refuses_offsets(offsets@, n_rows as nat, "string"@, e);
        }
    }
}

/// A nullable column is built exactly where there is a mark for each row of the
/// inner column. It has those rows, those marks and that column.
pub proof fn law_nullable_column_is_what_was_given<'r>(
    inner: &'r ColumnBuilder<'r>,
    null_map: &'r [u8],
    result: Result<ColumnBuilder<'r>, Error>,
)
    requires
        call_ensures(ColumnBuilder::nullable, (inner, null_map), result),
    ensures
        result is Ok <==> null_map@.len() == inner@.n_rows,
        result matches Ok(builder) ==> {
            &&& builder@.layout == sys::CHC_COL_NULLABLE
            &&& builder@.n_rows == inner@.n_rows
            &&& builder@.payload matches sys::chc_column_payload::nullable(p)
            &&& p.null_map == Some(null_map)
            &&& p.inner matches Some(c) && *c == inner@
        },
        result matches Err(e) ==> is_misuse(
            e,
            "nullable null map"@ + " length mismatch: got "@ + text::decimal(null_map@.len())
                + ", expected "@ + text::decimal(inner@.n_rows as nat),
        ),
{
}

/// An array column is built exactly where there is an offset for each row, none
/// is below the one before it, and the last one is the row count of the element
/// column. It has the rows, the offsets and the elements that were given.
pub proof fn law_array_column_is_what_was_given<'r>(
    values: &'r ColumnBuilder<'r>,
    offsets: &'r [u64],
    n_rows: usize,
    result: Result<ColumnBuilder<'r>, Error>,
)
    requires
        call_ensures(ColumnBuilder::array, (values, offsets, n_rows), result),
    ensures
        result is Ok <==> {
            &&& offsets@.len() == n_rows
            &&& ascends(offsets@)
            &&& offsets@.len() == 0 ==> values@.n_rows == 0
            &&& offsets@.len() > 0 ==> offsets@[n_rows - 1] == values@.n_rows
        },
        result matches Ok(builder) ==> {
            &&& builder@.layout == sys::CHC_COL_ARRAY
            &&& builder@.n_rows == n_rows
            &&& builder@.payload matches sys::chc_column_payload::array(p)
            &&& p.offsets == Some(offsets)
            &&& p.values matches Some(c) && *c == values@
        },
        result matches Err(e) ==> refuses_offsets(e, "array"@, offsets@, n_rows as nat) || (
        offsets@.len() == n_rows && ascends(offsets@) && is_misuse(
            e,
            "array values"@ + " length mismatch: got "@ + text::decimal(values@.n_rows as nat)
                + ", expected "@ + text::decimal(
                if n_rows == 0 {
                    0
                } else {
                    offsets@.last() as nat
                },
            ),
        )),
{
    lemma_labels();
    law_array_accepted(offsets@, n_rows as nat, values@.n_rows as nat);
    law_offsets_accepted(offsets@, n_rows as nat, "array"@);
    assert(ascends(offsets@) <==> column::nondecreasing(offsets@));
    if let Err(e) = result {
        if offsets_check(offsets@, n_rows as nat, "array"@) is Err {
            lemma_refuses_offsets(offsets@, n_rows as nat, "array"@, e);
        }
    }
}

/// A LowCardinality column is built exactly where keys of one, two, four or
/// eight bytes are given, one for each row, and each names a row of the
/// dictionary. It has the rows, the keys and the dictionary that were given.
pub proof fn law_low_cardinality_column_is_what_was_given<'r>(
    dict: &'r ColumnBuilder<'r>,
    key_size: i32,
    keys: &'r [u8],
    n_rows: usize,
    result: Result<ColumnBuilder<'r>, Error>,
)
    requires
        call_ensures(ColumnBuilder::low_cardinality, (dict, key_size, keys, n_rows), result),
        keys@.len() <= usize::MAX,
    ensures
        result is Ok <==> {
            &&& key_size == 1 || key_size == 2 || key_size == 4 || key_size == 8
            &&& keys@.len() == n_rows * key_size
            &&& forall|row: nat|
                row < n_rows ==> #[trigger] column::key_at(keys@, key_size as nat, row)
                    < dict@.n_rows
        },
        result matches Ok(builder) ==> {
            &&& builder@.layout == sys::CHC_COL_LOW_CARDINALITY
            &&& builder@.n_rows == n_rows
            &&& builder@.payload matches sys::chc_column_payload::lc(p)
            &&& p.key_size == key_size
            &&& p.keys == Some(keys)
            &&& p.dict matches Some(c) && *c == dict@
            &&& p.dict_n == dict@.n_rows
        },
        result matches Err(e) ==> {
            if key_size != 1 && key_size != 2 && key_size != 4 && key_size != 8 {
                is_misuse(
                    e,
                    "LowCardinality key size must be 1, 2, 4, or 8, got "@ + text::signed_decimal(
                        key_size as int,
                    ),
                )
            } else if n_rows * key_size > usize::MAX {
                is_misuse(
                    e,
                    "LowCardinality keys"@ + " length overflow: "@ + text::decimal(n_rows as nat)
                        + " * "@ + text::decimal(key_size as nat),
                )
            } else if keys@.len() != n_rows * key_size {
                is_misuse(
                    e,
                    "LowCardinality keys"@ + " length mismatch: got "@ + text::decimal(keys@.len())
                        + ", expected "@ + text::decimal((n_rows * key_size) as nat),
                )
            } else {
                exists|row: nat|
                    {
                        &&& row < n_rows
                        &&& #[trigger] column::key_at(keys@, key_size as nat, row) >= dict@.n_rows
                        &&& forall|k: nat|
                            k < row ==> #[trigger] column::key_at(keys@, key_size as nat, k)
                                < dict@.n_rows
                        &&& is_misuse(
                            e,
                            "LowCardinality key out of range at row "@ + text::decimal(row) + ": "@
                                + text::decimal(column::key_at(keys@, key_size as nat, row))
                                + " >= "@ + text::decimal(dict@.n_rows as nat),
                        )
                    }
            }
        },
{
    law_keys_accepted(keys@, key_size as int, n_rows as nat, dict@.n_rows as nat);
    if key_size == 1 || key_size == 2 || key_size == 4 || key_size == 8 {
        let size = key_size as nat;
        assert(n_rows * key_size >= 0) by (nonlinear_arith)
            requires
                key_size >= 0,
        ;
        lemma_found_key(keys@, size, n_rows as nat, dict@.n_rows as nat, 0);
        if result is Err && n_rows * key_size <= usize::MAX && keys@.len() == n_rows * key_size {
            let row = first_key_out_of_range(keys@, size, n_rows as nat, dict@.n_rows as nat, 0);
            assert(row < n_rows);
            assert(column::key_at(keys@, size, row) >= dict@.n_rows);
        }
    }
}

/// The first key out of range is one, and what precedes it is in range.
proof fn lemma_found_key(keys: Seq<u8>, size: nat, rows: nat, bound: nat, row: nat)
    requires
        row <= rows,
    ensures
        row <= first_key_out_of_range(keys, size, rows, bound, row) <= rows,
        first_key_out_of_range(keys, size, rows, bound, row) < rows ==> column::key_at(
            keys,
            size,
            first_key_out_of_range(keys, size, rows, bound, row),
        ) >= bound,
        forall|i: nat|
            row <= i < first_key_out_of_range(keys, size, rows, bound, row)
                ==> #[trigger] column::key_at(keys, size, i) < bound,
    decreases rows - row,
{
    if row < rows && column::key_at(keys, size, row) < bound {
        lemma_found_key(keys, size, rows, bound, row + 1);
    }
}

/// The first child with another row count is one, and what precedes it agrees.
proof fn lemma_found_mismatch(children: Seq<ColumnBuilder<'_>>, n_rows: usize, i: nat)
    ensures
        i <= children.len() ==> i <= first_row_mismatch(children, n_rows, i) <= children.len(),
        first_row_mismatch(children, n_rows, i) < children.len() ==> children[first_row_mismatch(
            children,
            n_rows,
            i,
        ) as int]@.n_rows != n_rows,
        forall|j: int|
            i <= j < first_row_mismatch(children, n_rows, i) ==> (#[trigger] children[j])@.n_rows
                == n_rows,
    decreases children.len() - i,
{
    if i < children.len() && children[i as int]@.n_rows == n_rows {
        lemma_found_mismatch(children, n_rows, i + 1);
    }
}

/// A tuple column is built exactly where there are children, all with one row
/// count, and room for a reference to each. It has the row count of each of its
/// children, and holds the children in order.
pub proof fn law_tuple_column_is_what_was_given<'a, 'r>(
    children: &'r [ColumnBuilder<'a>],
    ptrs: &'r mut Vec<Option<&'r sys::chc_column<'r>>>,
    result: Result<ColumnBuilder<'r>, Error>,
)
    requires
        call_ensures(ColumnBuilder::tuple, (children, ptrs), result),
        children@.len() <= usize::MAX,
    ensures
        result is Ok <==> {
            &&& children@.len() > 0
            &&& old(ptrs)@.len() == children@.len()
            &&& forall|i: int, j: int|
                0 <= i < children@.len() && 0 <= j < children@.len() ==> (
                #[trigger] children@[i])@.n_rows == (#[trigger] children@[j])@.n_rows
        },
        result matches Ok(builder) ==> {
            &&& builder@.layout == sys::CHC_COL_TUPLE
            &&& forall|i: int|
                0 <= i < children@.len() ==> builder@.n_rows == (#[trigger] children@[i])@.n_rows
            &&& builder@.payload matches sys::chc_column_payload::tuple(p)
            &&& p.arity == children@.len()
            &&& p.children matches Some(held) && held@.len() == children@.len() && forall|i: int|
                0 <= i < children@.len() ==> #[trigger] held@[i] == Some(&children@[i]@)
        },
        final(ptrs)@.len() == old(ptrs)@.len(),
{
    law_tuple_accepted(children@, old(ptrs)@.len());
    if let Ok(builder) = result {
        lemma_no_row_mismatch(children@, children@[0]@.n_rows, 0);
        assert forall|i: int, j: int|
            0 <= i < children@.len() && 0 <= j < children@.len() implies (
        #[trigger] children@[i])@.n_rows == (#[trigger] children@[j])@.n_rows by {
            assert(children@[i]@.n_rows == children@[0]@.n_rows);
            assert(children@[j]@.n_rows == children@[0]@.n_rows);
        }
    } else if children@.len() > 0 && old(ptrs)@.len() == children@.len() {
        let i = choose|i: int|
            0 <= i < children@.len() && (#[trigger] children@[i])@.n_rows != children@[0]@.n_rows;
        assert(children@[i]@.n_rows != children@[0]@.n_rows);
    }
}

/// A tuple column is refused with the reason: there are no children, there is no
/// room for a reference to each, or one has another row count than the first.
/// References to the children in front of that one have been stored, and no
/// others.
pub proof fn law_refused_tuple_names_the_reason<'a, 'r>(
    children: &'r [ColumnBuilder<'a>],
    ptrs: &'r mut Vec<Option<&'r sys::chc_column<'r>>>,
    result: Result<ColumnBuilder<'r>, Error>,
)
    requires
        call_ensures(ColumnBuilder::tuple, (children, ptrs), result),
    ensures
        result matches Err(e) ==> if children@.len() == 0 {
            is_misuse(e, "tuple column: needs at least one child"@) && final(ptrs)@ == old(ptrs)@
        } else if old(ptrs)@.len() != children@.len() {
            is_misuse(
                e,
                "tuple ptr scratch length mismatch: "@ + text::decimal(old(ptrs)@.len()) + " vs "@
                    + text::decimal(children@.len()) + " children"@,
            ) && final(ptrs)@ == old(ptrs)@
        } else {
            exists|i: int|
                {
                    &&& 0 < i < children@.len()
                    &&& (#[trigger] children@[i])@.n_rows != children@[0]@.n_rows
                    &&& forall|j: int|
                        0 <= j < i ==> (#[trigger] children@[j])@.n_rows == children@[0]@.n_rows
                    &&& forall|j: int|
                        0 <= j < i ==> #[trigger] final(ptrs)@[j] == Some(&children@[j]@)
                    &&& forall|j: int|
                        i <= j < children@.len() ==> #[trigger] final(ptrs)@[j] == old(ptrs)@[j]
                    &&& is_misuse(
                        e,
                        "tuple child "@ + text::decimal(i as nat) + " row count mismatch: "@
                            + text::decimal(children@[i]@.n_rows as nat) + " vs "@ + text::decimal(
                            children@[0]@.n_rows as nat,
                        ),
                    )
                }
        },
{
    if tuple_stored(children@, old(ptrs)@.len()) == 0 {
        assert(final(ptrs)@ =~= old(ptrs)@);
    }
    if children@.len() > 0 {
        let n_rows = children@[0]@.n_rows;
        lemma_found_mismatch(children@, n_rows, 0);
        let i = first_row_mismatch(children@, n_rows, 0) as int;
        if i < children@.len() {
            assert(children@[i]@.n_rows != n_rows);
        }
    }
}

/// A new block has no columns and no row count.
pub proof fn law_new_block_is_empty(
    block: BlockBuilder<'_>,
    default: BlockBuilder<'_>,
)
    requires
        call_ensures(BlockBuilder::new, (), block),
        call_ensures(<BlockBuilder as Default>::default, (), default),
    ensures
        block@.cols.len() == 0 && block@.n_rows is None,
        default@.cols.len() == 0 && default@.n_rows is None,
{
}

/// Whether a block after an attempt to add a column of `n_rows` rows is as it
/// should be. A column is added where it is the first or has the row count of
/// the block, and stands behind the others, which stay as they were. Otherwise
/// nothing is changed, and the error tells both row counts.
pub open spec fn is_extended<'a>(
    before: BlockBuilderView<'a>,
    after: BlockBuilderView<'a>,
    result: Result<(), Error>,
    name: &'a str,
    ty: TypeRef<'a>,
    col: sys::chc_column<'a>,
) -> bool {
    &&& result is Ok <==> before.n_rows is None || before.n_rows == Some(col.n_rows)
    &&& result is Ok ==> {
        &&& after.cols.len() == before.cols.len() + 1
        &&& forall|i: int|
            0 <= i < before.cols.len() ==> #[trigger] after.cols[i] == before.cols[i]
        &&& after.cols.last().name@ == name@
        &&& after.cols.last().name_len == vstd::utf8::encode_utf8(name@).len()
        &&& *after.cols.last().type_ == *ty.raw
        &&& *after.cols.last().col == col
        &&& after.n_rows == Some(col.n_rows)
    }
    &&& result matches Err(e) ==> {
        &&& after == before
        &&& is_misuse(
            e,
            "block_builder: row count mismatch ("@ + text::decimal(before.n_rows->0 as nat)
                + " vs "@ + text::decimal(col.n_rows as nat) + ")"@,
        )
    }
    &&& after.n_rows is None <==> after.cols.len() == 0
    &&& forall|i: int|
        0 <= i < after.cols.len() ==> after.n_rows == Some((#[trigger] after.cols[i]).col.n_rows)
}

/// A built column extends the block by it, or is refused.
pub proof fn law_column_is_added_or_refused<'a>(
    block: &mut BlockBuilder<'a>,
    name: &'a str,
    ty: TypeRef<'a>,
    col: &'a ColumnBuilder<'a>,
    result: Result<(), Error>,
)
    requires
        call_ensures(BlockBuilder::append, (block, name, ty, col), result),
        name.spec_bytes().len() <= usize::MAX,
    ensures
        is_extended(old(block)@, final(block)@, result, name, ty, col@),
{
}

/// A record of a column extends the block by it, or is refused.
pub proof fn law_record_is_added_or_refused<'a>(
    block: &mut BlockBuilder<'a>,
    name: &'a str,
    ty: TypeRef<'a>,
    col: &'a sys::chc_column<'a>,
    result: Result<(), Error>,
)
    requires
        call_ensures(BlockBuilder::push, (block, name, ty, col, col.n_rows), result),
        name.spec_bytes().len() <= usize::MAX,
    ensures
        is_extended(old(block)@, final(block)@, result, name, ty, *col),
{
}

/// A decoded column extends the block by it, or is refused.
pub proof fn law_decoded_column_is_added_or_refused<'a>(
    block: &mut BlockBuilder<'a>,
    name: &'a str,
    ty: TypeRef<'a>,
    col: Column<'a>,
    result: Result<(), Error>,
)
    requires
        call_ensures(BlockBuilder::append_column, (block, name, ty, col), result),
        name.spec_bytes().len() <= usize::MAX,
    ensures
        is_extended(old(block)@, final(block)@, result, name, ty, col@),
{
}

/// The record of a block holds its columns and counts them, and has the row
/// count of each. Without columns it has no rows.
pub proof fn law_block_hands_over_its_columns<'a>(
    block: &'a BlockBuilder<'a>,
    cols: &'a [sys::chc_block_col<'a>],
    raw: sys::chc_block_builder<'a>,
    i: int,
)
    requires
        call_ensures(BlockBuilder::columns, (block,), cols),
        call_ensures(BlockBuilder::as_raw, (block,), raw),
    ensures
        cols@ == block@.cols,
        raw.cols@ == block@.cols,
        raw.n_cols == raw.cols@.len(),
        raw.cols@.len() == 0 ==> raw.n_rows == 0,
        0 <= i < raw.cols@.len() ==> raw.cols@[i].col.n_rows == raw.n_rows,
{
}

} // verus!
