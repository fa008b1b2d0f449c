//! Decoded blocks.

use vstd::prelude::*;

use crate::column;
use crate::column::{check_node, Column};
use crate::error;
use crate::error::{Error, ErrorKind};
use crate::sys;
use crate::types::TypeRef;

verus! {

impl<'a> sys::chc_block<'a> {
    /// Whether every column is well formed.
    pub open spec fn wf(&self) -> bool {
        forall|i: int|
            0 <= i < self.columns@.len() ==> (#[trigger] self.columns@[i].column matches Some(c)
                ==> c.wf())
    }

    /// Whether every column is valid.
    pub open spec fn valid(&self) -> bool {
        forall|i: int|
            0 <= i < self.columns@.len() ==> (#[trigger] self.columns@[i].column matches Some(c)
                ==> c.valid())
    }

    /// Tests the condition that [`Block::from_raw`] asks of a record.
    pub fn is_well_formed(&self) -> (ok: bool)
        ensures
            ok == self.wf(),
    {
        let mut i: usize = 0;
        while i < self.columns.len()
            invariant
                i <= self.columns@.len(),
                forall|j: int|
                    0 <= j < i ==> (#[trigger] self.columns@[j].column matches Some(c)
                        ==> c.wf()),
            decreases self.columns@.len() - i,
        {
            match self.columns[i].column {
                Some(c) => {
                    if !check_node(c) {
                        assert(self.columns@[i as int].column == Some(c));
                        return false;
                    }
                },
                None => {},
            }
            i = i + 1;
        }
        true
    }
}

/// Options that describe Native block framing.
///
/// Native files and native TCP protocol use different optional fields. TCP
/// values depend on negotiated server revision. Incorrect values prevent
/// block decoding.
#[derive(Debug, Clone, Copy, PartialEq, Eq, Structural)]
pub struct BlockOpts {
    /// Includes 8-byte `BlockInfo` prefix used by TCP revision 51903 and later.
    pub has_block_info: bool,
    /// Includes custom serialization flag used by TCP revision 54454 and later.
    pub has_custom_serialization: bool,
    /// Read buffer size in bytes. Zero selects 8 KiB default.
    pub read_buffer_bytes: usize,
}

impl Default for BlockOpts {
    fn default() -> (opts: Self)
        ensures
            opts == (BlockOpts {
                has_block_info: false,
                has_custom_serialization: false,
                read_buffer_bytes: 0,
            }),
    {
        BlockOpts { has_block_info: false, has_custom_serialization: false, read_buffer_bytes: 0 }
    }
}

impl BlockOpts {
    /// Options as a record.
    pub fn to_raw(self) -> (raw: sys::chc_block_opts)
        ensures
            raw == (sys::chc_block_opts {
                has_block_info: self.has_block_info,
                has_custom_serialization: self.has_custom_serialization,
                read_buffer_bytes: self.read_buffer_bytes,
            }),
    {
        sys::chc_block_opts {
            has_block_info: self.has_block_info,
            has_custom_serialization: self.has_custom_serialization,
            read_buffer_bytes: self.read_buffer_bytes,
        }
    }
}

/// Decoded Native block.
pub struct Block<'b> {
    raw: sys::chc_block<'b>,
}

impl<'b> View for Block<'b> {
    type V = sys::chc_block<'b>;

    closed spec fn view(&self) -> sys::chc_block<'b> {
        self.raw
    }
}

impl<'b> Block<'b> {
    #[verifier::type_invariant]
    closed spec fn inv(self) -> bool {
        self.raw.wf()
    }

    /// Takes ownership of a block record, where there is one.
    pub fn from_raw(raw: Option<sys::chc_block<'b>>) -> (block: Option<Self>)
        requires
            raw matches Some(record) ==> record.wf(),
        ensures
            block is Some <==> raw is Some,
            block matches Some(b) ==> b@ == raw->0,
    {
        match raw {
            Some(raw) => Some(Block { raw }),
            None => None,
        }
    }

    pub fn n_rows(&self) -> (n: usize)
        ensures
            n == self@.n_rows,
    {
        self.raw.n_rows
    }

    pub fn n_columns(&self) -> (n: usize)
        ensures
            n == self@.columns@.len(),
    {
        self.raw.columns.len()
    }

    /// Returns column name bytes without UTF-8 validation.
    pub fn column_name(&self, i: usize) -> (name: Option<&'b [u8]>)
        ensures
            name == if i < self@.columns@.len() {
                self@.columns@[i as int].name
            } else {
                None
            },
    {
        if i < self.raw.columns.len() {
            self.raw.columns[i].name
        } else {
            None
        }
    }

    pub fn column_type(&self, i: usize) -> (ty: Option<TypeRef<'b>>)
        ensures
            match ty {
                Some(t) => i < self@.columns@.len() && self@.columns@[i as int].type_ == Some(
                    t.raw,
                ),
                None => i < self@.columns@.len() ==> self@.columns@[i as int].type_ is None,
            },
    {
        if i < self.raw.columns.len() {
            match self.raw.columns[i].type_ {
                Some(raw) => Some(TypeRef { raw }),
                None => None,
            }
        } else {
            None
        }
    }

    pub fn column(&self, i: usize) -> (column: Option<Column<'b>>)
        ensures
            match column {
                Some(c) => i < self@.columns@.len() && self@.columns@[i as int].column == Some(
                    &c@,
                ),
                None => i < self@.columns@.len() ==> self@.columns@[i as int].column is None,
            },
    {
        proof {
            use_type_invariant(self);
        }
        if i < self.raw.columns.len() {
            match self.raw.columns[i].column {
                Some(raw) => {
                    assert(self.raw.columns@[i as int].column == Some(raw));
                    Some(Column::from_raw(raw))
                },
                None => None,
            }
        } else {
            None
        }
    }

    /// Validates structural relationships within every column.
    ///
    /// Validation checks array offset order and LowCardinality dictionary
    /// indexes. Call this method before using offsets or keys from untrusted
    /// data as indexes.
    ///
    /// Runtime cost is proportional to row count.
    pub fn validate(&self) -> (result: Result<(), Error>)
        ensures
            error::outcome(result) == block_validity(self@),
    {
        let mut i: usize = 0;
        while i < self.n_columns()
            invariant
                i <= self@.columns@.len(),
                forall|j: int|
                    0 <= j < i ==> (#[trigger] self@.columns@[j].column matches Some(c)
                        ==> c.valid()),
            decreases self@.columns@.len() - i,
        {
            match self.column(i) {
                Some(column) => {
                    assert(self@.columns@[i as int].column == Some(&column@));
                    match column.validate() {
                        Ok(()) => {},
                        Err(e) => {
                            return Err(e);
                        },
                    }
                },
                None => {},
            }
            i = i + 1;
        }
        Ok(())
    }

    /// Returns server flag marking a block truncated by `max_rows_to_group_by`
    /// with `group_by_overflow_mode = 'any'`.
    pub fn is_overflows(&self) -> (flag: bool)
        ensures
            flag == self@.is_overflows,
    {
        self.raw.is_overflows
    }

    /// Returns two-level aggregation bucket, or -1 when not applicable.
    pub fn bucket_num(&self) -> (bucket: i32)
        ensures
            bucket == self@.bucket_num,
    {
        self.raw.bucket_num
    }
}

/// Outcome of a validation of `block`.
pub open spec fn block_validity(block: sys::chc_block) -> Result<(), error::ErrorView> {
    if block.valid() {
        Ok(())
    } else {
        Err(
            error::local_error(ErrorKind::Protocol, "column offsets or keys are out of range"@),
        )
    }
}

/// Turns what a block read reported into its outcome. `None` is the end of the
/// stream at a block boundary.
pub fn finish_read<'b>(
    rc: i32,
    err: &sys::chc_err,
    out: Option<sys::chc_block<'b>>,
) -> (result: Result<Option<Block<'b>>, Error>)
    requires
        out matches Some(record) ==> record.wf(),
    ensures
        match result {
            Ok(block) => {
                &&& error::checked(rc, *err) is Ok
                &&& block is Some <==> out is Some
                &&& block matches Some(b) ==> b@ == out->0
            },
            Err(e) => error::checked(rc, *err) == Err::<(), error::ErrorView>(e@),
        },
{
    match error::check(rc, err) {
        Ok(()) => Ok(Block::from_raw(out)),
        Err(e) => Err(e),
    }
}

/// A block is valid exactly where each of its columns is.
pub proof fn law_block_valid_by_columns(block: sys::chc_block)
    ensures
        block_validity(block) is Ok <==> forall|i: int|
            0 <= i < block.columns@.len() ==> (#[trigger] block.columns@[i].column matches Some(c)
                ==> column::column_validity(*c) is Ok),
{
    if block.valid() {
        assert forall|i: int| 0 <= i < block.columns@.len() implies (
        #[trigger] block.columns@[i].column matches Some(c) ==> column::column_validity(*c) is Ok) by {}
    } else {
        let i = choose|i: int|
            0 <= i < block.columns@.len() && !(#[trigger] block.columns@[i].column matches Some(c)
                ==> c.valid());
        assert(!(block.columns@[i].column matches Some(c) ==> column::column_validity(*c) is Ok));
    }
}

/// Framing options are passed on as they are, and none is set by default.
pub proof fn law_framing_is_passed_on(
    opts: BlockOpts,
    raw: sys::chc_block_opts,
    default: BlockOpts,
)
    requires
        call_ensures(BlockOpts::to_raw, (opts,), raw),
        call_ensures(<BlockOpts as Default>::default, (), default),
    ensures
        raw.has_block_info == opts.has_block_info,
        raw.has_custom_serialization == opts.has_custom_serialization,
        raw.read_buffer_bytes == opts.read_buffer_bytes,
        !default.has_block_info && !default.has_custom_serialization,
        default.read_buffer_bytes == 0,
{
}

/// A block says of itself what its record says.
pub proof fn law_block_shows_its_record<'b>(
    record: sys::chc_block<'b>,
    made: Option<Block<'b>>,
    block: Block<'b>,
    n_rows: usize,
    n_columns: usize,
    overflows: bool,
    bucket: i32,
)
    requires
        call_ensures(Block::from_raw, (Some(record),), made),
        made == Some(block),
        call_ensures(Block::n_rows, (&block,), n_rows),
        call_ensures(Block::n_columns, (&block,), n_columns),
        call_ensures(Block::is_overflows, (&block,), overflows),
        call_ensures(Block::bucket_num, (&block,), bucket),
    ensures
        block@ == record,
        n_rows == record.n_rows,
        n_columns == record.columns@.len(),
        overflows == record.is_overflows,
        bucket == record.bucket_num,
{
}

/// There is a block exactly where there is a record of one.
pub proof fn law_block_needs_a_record<'b>(
    record: Option<sys::chc_block<'b>>,
    made: Option<Block<'b>>,
)
    requires
        call_ensures(Block::from_raw, (record,), made),
    ensures
        made is Some <==> record is Some,
        made matches Some(block) ==> record == Some(block@),
{
}

/// A block hands out name, type and column of each place. A missing one and a
/// place behind the last column give none.
pub proof fn law_columns_are_handed_out_by_place<'b>(
    block: Block<'b>,
    i: usize,
    name: Option<&'b [u8]>,
    ty: Option<TypeRef<'b>>,
    column: Option<Column<'b>>,
)
    requires
        call_ensures(Block::column_name, (&block, i), name),
        call_ensures(Block::column_type, (&block, i), ty),
        call_ensures(Block::column, (&block, i), column),
    ensures
        i >= block@.columns@.len() ==> name is None && ty is None && column is None,
        i < block@.columns@.len() ==> {
            let entry = block@.columns@[i as int];
            &&& name == entry.name
            &&& ty is Some <==> entry.type_ is Some
            &&& ty matches Some(t) ==> *t.raw == *entry.type_->0
            &&& column is Some <==> entry.column is Some
            &&& column matches Some(c) ==> c@ == *entry.column->0
        },
{
}

/// A block is accepted exactly where each of its columns is valid. Any other is
/// an error of the protocol.
pub proof fn law_validation_reaches_every_column(block: Block<'_>, result: Result<(), Error>)
    requires
        call_ensures(Block::validate, (&block,), result),
    ensures
        result is Ok <==> forall|i: int|
            0 <= i < block@.columns@.len() ==> (#[trigger] block@.columns@[i].column matches Some(
                c,
            ) ==> c.valid()),
        result matches Err(e) ==> e.kind == ErrorKind::Protocol && e.server_code == 0
            && e.server_name@.len() == 0,
{
}

/// A block record is well formed exactly where each of its columns is.
pub proof fn law_block_is_well_formed_by_its_columns(block: sys::chc_block<'_>, ok: bool)
    requires
        call_ensures(sys::chc_block::is_well_formed, (&block,), ok),
    ensures
        ok <==> forall|i: int|
            0 <= i < block.columns@.len() ==> (#[trigger] block.columns@[i].column matches Some(c)
                ==> c.wf()),
{
}

/// A read gives what was decoded exactly where its code is that of success:
/// the block, or none at the end of the stream. Any other code is the error that
/// the code and the record describe, whatever was decoded.
pub proof fn law_read_gives_blocks_only_on_success<'b>(
    rc: i32,
    err: sys::chc_err,
    out: Option<sys::chc_block<'b>>,
    result: Result<Option<Block<'b>>, Error>,
    failure: Error,
)
    requires
        call_ensures(finish_read, (rc, &err, out), result),
        call_ensures(Error::from_raw, (rc, &err), failure),
    ensures
        result is Ok <==> rc == sys::CHC_OK,
        match result {
            Ok(Some(block)) => out == Some(block@),
            Ok(None) => out is None,
            Err(e) => e.kind == failure.kind && e.message@ == failure.message@ && e.server_code
                == failure.server_code && e.server_name@ == failure.server_name@
                && e.kind.spec_code() == rc,
        },
{
}

} // verus!
