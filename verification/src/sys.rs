//! Plain records and codes shared with the clickhouse-c library.
//!
//! Each record holds, as ordinary values, what a record of the C interface
//! holds. A pointer that may be null is an `Option` of a reference, a C union
//! is an enum, and a callback slot is a flag that tells whether it is filled.

use vstd::prelude::*;

verus! {

pub type chc_kind = i32;

pub type chc_col_kind = i32;

pub type chc_compression = i32;

pub type chc_packet_kind = i32;

pub type chc_interval_unit = i32;

// Result codes

pub const CHC_OK: i32 = 0;

pub const CHC_ERR_IO: i32 = 1;

pub const CHC_ERR_EOF: i32 = 2;

pub const CHC_ERR_PROTOCOL: i32 = 3;

pub const CHC_ERR_TYPE: i32 = 4;

pub const CHC_ERR_OOM: i32 = 5;

pub const CHC_ERR_CANCELLED: i32 = 6;

pub const CHC_ERR_SERVER: i32 = 7;

pub const CHC_ERR_USAGE: i32 = 8;

pub const CHC_WOULD_BLOCK: i32 = 9;

// Capacities of the text fields of an error record

pub const CHC_ERR_MSG_LEN: usize = 256;

pub const CHC_ERR_NAME_LEN: usize = 64;

// Type kinds

pub const CHC_VOID: i32 = 0;

pub const CHC_INT8: i32 = 1;

pub const CHC_INT16: i32 = 2;

pub const CHC_INT32: i32 = 3;

pub const CHC_INT64: i32 = 4;

pub const CHC_INT128: i32 = 5;

pub const CHC_INT256: i32 = 6;

pub const CHC_UINT8: i32 = 7;

pub const CHC_UINT16: i32 = 8;

pub const CHC_UINT32: i32 = 9;

pub const CHC_UINT64: i32 = 10;

pub const CHC_UINT128: i32 = 11;

pub const CHC_UINT256: i32 = 12;

pub const CHC_FLOAT32: i32 = 13;

pub const CHC_FLOAT64: i32 = 14;

pub const CHC_BFLOAT16: i32 = 15;

pub const CHC_BOOL: i32 = 16;

pub const CHC_DATE: i32 = 17;

pub const CHC_DATE32: i32 = 18;

pub const CHC_DATETIME: i32 = 19;

pub const CHC_DATETIME64: i32 = 20;

pub const CHC_TIME: i32 = 21;

pub const CHC_TIME64: i32 = 22;

pub const CHC_STRING: i32 = 23;

pub const CHC_FIXED_STRING: i32 = 24;

pub const CHC_DECIMAL32: i32 = 25;

pub const CHC_DECIMAL64: i32 = 26;

pub const CHC_DECIMAL128: i32 = 27;

pub const CHC_DECIMAL256: i32 = 28;

pub const CHC_UUID: i32 = 29;

pub const CHC_IPV4: i32 = 30;

pub const CHC_IPV6: i32 = 31;

pub const CHC_ENUM8: i32 = 32;

pub const CHC_ENUM16: i32 = 33;

pub const CHC_NULLABLE: i32 = 34;

pub const CHC_ARRAY: i32 = 35;

pub const CHC_TUPLE: i32 = 36;

pub const CHC_MAP: i32 = 37;

pub const CHC_NESTED: i32 = 38;

pub const CHC_LOW_CARDINALITY: i32 = 39;

pub const CHC_INTERVAL: i32 = 40;

pub const CHC_POINT: i32 = 41;

pub const CHC_RING: i32 = 42;

pub const CHC_POLYGON: i32 = 43;

pub const CHC_MULTI_POLYGON: i32 = 44;

pub const CHC_VARIANT: i32 = 45;

pub const CHC_DYNAMIC: i32 = 46;

pub const CHC_JSON: i32 = 47;

pub const CHC_OBJECT: i32 = 48;

pub const CHC_AGGREGATE_FUNCTION: i32 = 49;

pub const CHC_SIMPLE_AGGREGATE_FUNCTION: i32 = 50;

pub const CHC_NOTHING: i32 = 51;

pub const CHC_QBIT: i32 = 52;

// Interval units. Zero marks a type without one

pub const CHC_INTERVAL_NONE: i32 = 0;

pub const CHC_INTERVAL_NANOSECOND: i32 = 1;

pub const CHC_INTERVAL_MICROSECOND: i32 = 2;

pub const CHC_INTERVAL_MILLISECOND: i32 = 3;

pub const CHC_INTERVAL_SECOND: i32 = 4;

pub const CHC_INTERVAL_MINUTE: i32 = 5;

pub const CHC_INTERVAL_HOUR: i32 = 6;

pub const CHC_INTERVAL_DAY: i32 = 7;

pub const CHC_INTERVAL_WEEK: i32 = 8;

pub const CHC_INTERVAL_MONTH: i32 = 9;

pub const CHC_INTERVAL_QUARTER: i32 = 10;

pub const CHC_INTERVAL_YEAR: i32 = 11;

// Column layouts

pub const CHC_COL_FIXED: i32 = 0;

pub const CHC_COL_STRING: i32 = 1;

pub const CHC_COL_NULLABLE: i32 = 2;

pub const CHC_COL_ARRAY: i32 = 3;

pub const CHC_COL_TUPLE: i32 = 4;

pub const CHC_COL_LOW_CARDINALITY: i32 = 5;

pub const CHC_COL_NOTHING: i32 = 6;

// Compression algorithms

pub const CHC_COMP_NONE: i32 = 0;

pub const CHC_COMP_LZ4: i32 = 1;

pub const CHC_COMP_ZSTD: i32 = 2;

// Server packet kinds

pub const CHC_PKT_HELLO: i32 = 0;

pub const CHC_PKT_DATA: i32 = 1;

pub const CHC_PKT_EXCEPTION: i32 = 2;

pub const CHC_PKT_PROGRESS: i32 = 3;

pub const CHC_PKT_PONG: i32 = 4;

pub const CHC_PKT_END_OF_STREAM: i32 = 5;

pub const CHC_PKT_PROFILE_INFO: i32 = 6;

pub const CHC_PKT_TOTALS: i32 = 7;

pub const CHC_PKT_EXTREMES: i32 = 8;

pub const CHC_PKT_LOG: i32 = 10;

pub const CHC_PKT_TABLE_COLUMNS: i32 = 11;

pub const CHC_PKT_PROFILE_EVENTS: i32 = 14;

// Errors

/// Error record filled by a failing operation. Text fields are zero-terminated.
#[derive(Debug, Clone)]
pub struct chc_err {
    pub server_code: i32,
    pub msg: Vec<u8>,
    pub server_name: Vec<u8>,
}

impl chc_err {
    /// Record without an error.
    pub fn zeroed() -> (err: Self)
        ensures
            err.server_code == 0,
            err.msg@ == Seq::new(CHC_ERR_MSG_LEN as nat, |i: int| 0u8),
            err.server_name@ == Seq::new(CHC_ERR_NAME_LEN as nat, |i: int| 0u8),
    {
        chc_err {
            server_code: 0,
            msg: zeros(CHC_ERR_MSG_LEN),
            server_name: zeros(CHC_ERR_NAME_LEN),
        }
    }
}

/// Makes `n` zero bytes.
pub fn zeros(n: usize) -> (bytes: Vec<u8>)
    ensures
        bytes@ == Seq::new(n as nat, |i: int| 0u8),
{
    let mut bytes: Vec<u8> = Vec::new();
    while bytes.len() < n
        invariant
            bytes@ == Seq::new(bytes@.len(), |i: int| 0u8),
            bytes@.len() <= n,
        decreases n - bytes@.len(),
    {
        bytes.push(0);
    }
    bytes
}

// Types

/// Entry of an enum type.
pub struct chc_enum_entry {
    pub name: Option<Vec<u8>>,
    pub value: i64,
}

/// Node of a parsed type.
///
/// A numeric field means something only for the kinds that have it.
pub struct chc_type {
    pub kind: chc_kind,
    pub children: Vec<Option<chc_type>>,
    pub fixed_size: i32,
    pub elem_size: usize,
    pub decimal_precision: i32,
    pub decimal_scale: i32,
    pub datetime64_scale: i32,
    pub qbit_dimension: usize,
    pub qbit_element_size: usize,
    pub timezone: Option<Vec<u8>>,
    pub name: Option<Vec<u8>>,
    pub enum_entries: Vec<chc_enum_entry>,
    pub field_names: Vec<Option<Vec<u8>>>,
    /// Type in ClickHouse syntax.
    pub text: Vec<u8>,
}

// Columns

#[derive(Clone, Copy)]
pub struct chc_column_fixed<'a> {
    pub data: Option<&'a [u8]>,
    pub elem_size: usize,
}

#[derive(Clone, Copy)]
pub struct chc_column_str<'a> {
    pub data: Option<&'a [u8]>,
    pub offsets: Option<&'a [u64]>,
    pub bytes: usize,
}

#[derive(Clone, Copy)]
pub struct chc_column_nullable<'a> {
    pub null_map: Option<&'a [u8]>,
    pub inner: Option<&'a chc_column<'a>>,
}

#[derive(Clone, Copy)]
pub struct chc_column_array<'a> {
    pub offsets: Option<&'a [u64]>,
    pub values: Option<&'a chc_column<'a>>,
}

#[derive(Clone, Copy)]
pub struct chc_column_tuple<'a> {
    pub children: Option<&'a Vec<Option<&'a chc_column<'a>>>>,
    pub arity: usize,
}

#[derive(Clone, Copy)]
pub struct chc_column_lc<'a> {
    pub key_size: i32,
    pub keys: Option<&'a [u8]>,
    pub dict: Option<&'a chc_column<'a>>,
    pub dict_n: usize,
}

/// Storage of a column. `layout` of the column tells which variant it is.
#[derive(Clone, Copy)]
pub enum chc_column_payload<'a> {
    fixed(chc_column_fixed<'a>),
    str_(chc_column_str<'a>),
    nullable(chc_column_nullable<'a>),
    array(chc_column_array<'a>),
    tuple(chc_column_tuple<'a>),
    lc(chc_column_lc<'a>),
    nothing,
}

/// Column over borrowed data and borrowed child columns.
#[derive(Clone, Copy)]
pub struct chc_column<'a> {
    pub layout: chc_col_kind,
    pub n_rows: usize,
    pub payload: chc_column_payload<'a>,
}

// Blocks

/// Named and typed column of a decoded block.
#[derive(Clone, Copy)]
pub struct chc_block_entry<'a> {
    pub name: Option<&'a [u8]>,
    pub type_: Option<&'a chc_type>,
    pub column: Option<&'a chc_column<'a>>,
}

/// Decoded block.
pub struct chc_block<'a> {
    pub n_rows: usize,
    pub columns: Vec<chc_block_entry<'a>>,
    pub is_overflows: bool,
    pub bucket_num: i32,
}

/// Framing of a block stream.
#[derive(Debug, Clone, Copy, PartialEq, Eq, Structural)]
pub struct chc_block_opts {
    pub has_block_info: bool,
    pub has_custom_serialization: bool,
    pub read_buffer_bytes: usize,
}

impl chc_block_opts {
    /// Framing without optional fields, and the default buffer size.
    pub fn zeroed() -> (opts: Self)
        ensures
            opts == (chc_block_opts {
                has_block_info: false,
                has_custom_serialization: false,
                read_buffer_bytes: 0,
            }),
    {
        chc_block_opts {
            has_block_info: false,
            has_custom_serialization: false,
            read_buffer_bytes: 0,
        }
    }
}

/// Column of a block to be written.
#[derive(Clone, Copy)]
pub struct chc_block_col<'a> {
    pub name: &'a str,
    pub name_len: usize,
    pub type_: &'a chc_type,
    pub col: &'a chc_column<'a>,
}

/// Block to be written: its columns and their totals.
#[derive(Clone, Copy)]
pub struct chc_block_builder<'a> {
    pub cols: &'a [chc_block_col<'a>],
    pub n_cols: usize,
    pub n_rows: usize,
}

impl<'a> chc_block_builder<'a> {
    /// Block without columns.
    pub fn zeroed() -> (builder: Self)
        ensures
            builder.cols@.len() == 0,
            builder.n_cols == 0,
            builder.n_rows == 0,
    {
        chc_block_builder { cols: &[], n_cols: 0, n_rows: 0 }
    }
}

// Queries. Each text is zero-terminated, except the query identifier

/// Query setting.
pub struct chc_query_setting {
    pub name: Vec<u8>,
    pub value: Vec<u8>,
    pub important: bool,
    pub custom: bool,
}

/// Query parameter.
pub struct chc_query_param {
    pub name: Vec<u8>,
    pub value: Vec<u8>,
}

/// Values sent along with a query.
pub struct chc_query_opts {
    pub query_id: Option<Vec<u8>>,
    pub settings: Vec<chc_query_setting>,
    pub params: Vec<chc_query_param>,
}

// Compression

/// Compression callbacks. A field tells whether the callback is present.
#[derive(Debug, Clone, Copy, PartialEq, Eq, Structural)]
pub struct chc_codec {
    pub lz4_compress: bool,
    pub lz4_decompress: bool,
    pub zstd_compress: bool,
    pub zstd_decompress: bool,
    pub lz4_bound: bool,
    pub zstd_bound: bool,
}

// Native protocol client

/// Client settings. Each text is zero-terminated.
pub struct chc_client_opts {
    pub client_name: Option<Vec<u8>>,
    pub client_version_major: u64,
    pub client_version_minor: u64,
    pub client_version_patch: u64,
    pub client_revision: u64,
    pub database: Option<Vec<u8>>,
    pub user: Option<Vec<u8>>,
    pub password: Option<Vec<u8>>,
    pub compression: chc_compression,
    pub codec: Option<chc_codec>,
    pub read_buffer_bytes: usize,
}

impl chc_client_opts {
    /// Settings that leave everything to its default.
    pub fn zeroed() -> (opts: Self)
        ensures
            opts == (chc_client_opts {
                client_name: None,
                client_version_major: 0,
                client_version_minor: 0,
                client_version_patch: 0,
                client_revision: 0,
                database: None,
                user: None,
                password: None,
                compression: CHC_COMP_NONE,
                codec: None,
                read_buffer_bytes: 0,
            }),
    {
        chc_client_opts {
            client_name: None,
            client_version_major: 0,
            client_version_minor: 0,
            client_version_patch: 0,
            client_revision: 0,
            database: None,
            user: None,
            password: None,
            compression: CHC_COMP_NONE,
            codec: None,
            read_buffer_bytes: 0,
        }
    }
}

/// Server information. Each text is zero-terminated.
pub struct chc_server_info {
    pub name: Vec<u8>,
    pub timezone: Vec<u8>,
    pub display_name: Vec<u8>,
    pub version_major: u64,
    pub version_minor: u64,
    pub version_patch: u64,
    pub revision: u64,
}

/// Server exception.
pub struct chc_exception {
    pub code: i32,
    pub name: Option<Vec<u8>>,
    pub display_text: Option<Vec<u8>>,
    pub stack_trace: Option<Vec<u8>>,
}

#[derive(Debug, Clone, Copy, PartialEq, Eq, Structural)]
pub struct chc_packet_progress {
    pub rows: u64,
    pub bytes: u64,
    pub total_rows: u64,
    pub written_rows: u64,
    pub written_bytes: u64,
}

#[derive(Debug, Clone, Copy, PartialEq, Eq, Structural)]
pub struct chc_packet_profile {
    pub rows: u64,
    pub blocks: u64,
    pub bytes: u64,
    pub rows_before_limit: u64,
    pub applied_limit: u8,
    pub calculated_rows_before_limit: u8,
}

/// Payload of a packet. `kind` of the packet tells which variant it is.
pub enum chc_packet_payload<'a> {
    block(Option<chc_block<'a>>),
    exception(Option<chc_exception>),
    progress(chc_packet_progress),
    profile(chc_packet_profile),
}

/// Packet received from a server.
pub struct chc_packet<'a> {
    pub kind: chc_packet_kind,
    pub payload: chc_packet_payload<'a>,
}

impl<'a> chc_packet<'a> {
    /// Packet without a payload, to be filled by a receive.
    pub fn zeroed() -> (packet: Self)
        ensures
            packet == (chc_packet { kind: 0, payload: chc_packet_payload::block(None) }),
    {
        chc_packet { kind: 0, payload: chc_packet_payload::block(None) }
    }
}

/// Fresh records are empty: no error, no option, no column, no setting and no
/// payload.
pub proof fn law_fresh_records_are_empty(
    err: chc_err,
    framing: chc_block_opts,
    block: chc_block_builder<'_>,
    settings: chc_client_opts,
    packet: chc_packet<'_>,
    i: int,
)
    requires
        call_ensures(chc_err::zeroed, (), err),
        call_ensures(chc_block_opts::zeroed, (), framing),
        call_ensures(chc_block_builder::zeroed, (), block),
        call_ensures(chc_client_opts::zeroed, (), settings),
        call_ensures(chc_packet::zeroed, (), packet),
    ensures
        err.server_code == 0,
        err.msg@.len() == CHC_ERR_MSG_LEN && err.server_name@.len() == 64,
        0 <= i < CHC_ERR_MSG_LEN ==> err.msg@[i] == 0,
        0 <= i < 64 ==> err.server_name@[i] == 0,
        !framing.has_block_info && !framing.has_custom_serialization,
        framing.read_buffer_bytes == 0,
        block.cols@.len() == 0 && block.n_cols == 0 && block.n_rows == 0,
        settings.client_name is None && settings.database is None && settings.user is None
            && settings.password is None,
        settings.client_version_major == 0 && settings.client_version_minor == 0
            && settings.client_version_patch == 0 && settings.client_revision == 0,
        settings.compression == CHC_COMP_NONE && settings.codec is None,
        settings.read_buffer_bytes == 0,
        packet.kind == 0 && packet.payload == chc_packet_payload::block(None),
{
}

/// As many zero bytes are made as were asked for.
pub proof fn law_zeros_are_zero(n: usize, bytes: Vec<u8>, i: int)
    requires
        call_ensures(zeros, (n,), bytes),
    ensures
        bytes@.len() == n,
        0 <= i < n ==> bytes@[i] == 0,
{
}

} // verus!
