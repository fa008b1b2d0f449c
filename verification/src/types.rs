//! ClickHouse type inspection.

use vstd::prelude::*;

use crate::error;
use crate::error::Error;
use crate::sys;
use crate::text;

verus! {

/// ClickHouse type kind.
#[derive(Debug, Clone, Copy, PartialEq, Eq, Structural)]
pub enum Kind {
    Void,
    Int8,
    Int16,
    Int32,
    Int64,
    Int128,
    Int256,
    UInt8,
    UInt16,
    UInt32,
    UInt64,
    UInt128,
    UInt256,
    Float32,
    Float64,
    BFloat16,
    Bool,
    Date,
    Date32,
    DateTime,
    DateTime64,
    Time,
    Time64,
    String,
    FixedString,
    Decimal32,
    Decimal64,
    Decimal128,
    Decimal256,
    Uuid,
    Ipv4,
    Ipv6,
    Enum8,
    Enum16,
    Nullable,
    Array,
    Tuple,
    Mapping,
    Nested,
    LowCardinality,
    Interval,
    Point,
    Ring,
    Polygon,
    MultiPolygon,
    Variant,
    Dynamic,
    Json,
    Object,
    AggregateFunction,
    SimpleAggregateFunction,
    Nothing,
    QBit,
}

impl Kind {
    /// Code of a kind.
    pub open spec fn spec_code(self) -> sys::chc_kind {
        match self {
            Kind::Void => sys::CHC_VOID,
            Kind::Int8 => sys::CHC_INT8,
            Kind::Int16 => sys::CHC_INT16,
            Kind::Int32 => sys::CHC_INT32,
            Kind::Int64 => sys::CHC_INT64,
            Kind::Int128 => sys::CHC_INT128,
            Kind::Int256 => sys::CHC_INT256,
            Kind::UInt8 => sys::CHC_UINT8,
            Kind::UInt16 => sys::CHC_UINT16,
            Kind::UInt32 => sys::CHC_UINT32,
            Kind::UInt64 => sys::CHC_UINT64,
            Kind::UInt128 => sys::CHC_UINT128,
            Kind::UInt256 => sys::CHC_UINT256,
            Kind::Float32 => sys::CHC_FLOAT32,
            Kind::Float64 => sys::CHC_FLOAT64,
            Kind::BFloat16 => sys::CHC_BFLOAT16,
            Kind::Bool => sys::CHC_BOOL,
            Kind::Date => sys::CHC_DATE,
            Kind::Date32 => sys::CHC_DATE32,
            Kind::DateTime => sys::CHC_DATETIME,
            Kind::DateTime64 => sys::CHC_DATETIME64,
            Kind::Time => sys::CHC_TIME,
            Kind::Time64 => sys::CHC_TIME64,
            Kind::String => sys::CHC_STRING,
            Kind::FixedString => sys::CHC_FIXED_STRING,
            Kind::Decimal32 => sys::CHC_DECIMAL32,
            Kind::Decimal64 => sys::CHC_DECIMAL64,
            Kind::Decimal128 => sys::CHC_DECIMAL128,
            Kind::Decimal256 => sys::CHC_DECIMAL256,
            Kind::Uuid => sys::CHC_UUID,
            Kind::Ipv4 => sys::CHC_IPV4,
            Kind::Ipv6 => sys::CHC_IPV6,
            Kind::Enum8 => sys::CHC_ENUM8,
            Kind::Enum16 => sys::CHC_ENUM16,
            Kind::Nullable => sys::CHC_NULLABLE,
            Kind::Array => sys::CHC_ARRAY,
            Kind::Tuple => sys::CHC_TUPLE,
            Kind::Mapping => sys::CHC_MAP,
            Kind::Nested => sys::CHC_NESTED,
            Kind::LowCardinality => sys::CHC_LOW_CARDINALITY,
            Kind::Interval => sys::CHC_INTERVAL,
            Kind::Point => sys::CHC_POINT,
            Kind::Ring => sys::CHC_RING,
            Kind::Polygon => sys::CHC_POLYGON,
            Kind::MultiPolygon => sys::CHC_MULTI_POLYGON,
            Kind::Variant => sys::CHC_VARIANT,
            Kind::Dynamic => sys::CHC_DYNAMIC,
            Kind::Json => sys::CHC_JSON,
            Kind::Object => sys::CHC_OBJECT,
            Kind::AggregateFunction => sys::CHC_AGGREGATE_FUNCTION,
            Kind::SimpleAggregateFunction => sys::CHC_SIMPLE_AGGREGATE_FUNCTION,
            Kind::Nothing => sys::CHC_NOTHING,
            Kind::QBit => sys::CHC_QBIT,
        }
    }

    /// Kind of a code, where there is one.
    pub open spec fn spec_from_raw(k: sys::chc_kind) -> Option<Kind> {
        if k == sys::CHC_VOID {
            Some(Kind::Void)
        } else if k == sys::CHC_INT8 {
            Some(Kind::Int8)
        } else if k == sys::CHC_INT16 {
            Some(Kind::Int16)
        } else if k == sys::CHC_INT32 {
            Some(Kind::Int32)
        } else if k == sys::CHC_INT64 {
            Some(Kind::Int64)
        } else if k == sys::CHC_INT128 {
            Some(Kind::Int128)
        } else if k == sys::CHC_INT256 {
            Some(Kind::Int256)
        } else if k == sys::CHC_UINT8 {
            Some(Kind::UInt8)
        } else if k == sys::CHC_UINT16 {
            Some(Kind::UInt16)
        } else if k == sys::CHC_UINT32 {
            Some(Kind::UInt32)
        } else if k == sys::CHC_UINT64 {
            Some(Kind::UInt64)
        } else if k == sys::CHC_UINT128 {
            Some(Kind::UInt128)
        } else if k == sys::CHC_UINT256 {
            Some(Kind::UInt256)
        } else if k == sys::CHC_FLOAT32 {
            Some(Kind::Float32)
        } else if k == sys::CHC_FLOAT64 {
            Some(Kind::Float64)
        } else if k == sys::CHC_BFLOAT16 {
            Some(Kind::BFloat16)
        } else if k == sys::CHC_BOOL {
            Some(Kind::Bool)
        } else if k == sys::CHC_DATE {
            Some(Kind::Date)
        } else if k == sys::CHC_DATE32 {
            Some(Kind::Date32)
        } else if k == sys::CHC_DATETIME {
            Some(Kind::DateTime)
        } else if k == sys::CHC_DATETIME64 {
            Some(Kind::DateTime64)
        } else if k == sys::CHC_TIME {
            Some(Kind::Time)
        } else if k == sys::CHC_TIME64 {
            Some(Kind::Time64)
        } else if k == sys::CHC_STRING {
            Some(Kind::String)
        } else if k == sys::CHC_FIXED_STRING {
            Some(Kind::FixedString)
        } else if k == sys::CHC_DECIMAL32 {
            Some(Kind::Decimal32)
        } else if k == sys::CHC_DECIMAL64 {
            Some(Kind::Decimal64)
        } else if k == sys::CHC_DECIMAL128 {
            Some(Kind::Decimal128)
        } else if k == sys::CHC_DECIMAL256 {
            Some(Kind::Decimal256)
        } else if k == sys::CHC_UUID {
            Some(Kind::Uuid)
        } else if k == sys::CHC_IPV4 {
            Some(Kind::Ipv4)
        } else if k == sys::CHC_IPV6 {
            Some(Kind::Ipv6)
        } else if k == sys::CHC_ENUM8 {
            Some(Kind::Enum8)
        } else if k == sys::CHC_ENUM16 {
            Some(Kind::Enum16)
        } else if k == sys::CHC_NULLABLE {
            Some(Kind::Nullable)
        } else if k == sys::CHC_ARRAY {
            Some(Kind::Array)
        } else if k == sys::CHC_TUPLE {
            Some(Kind::Tuple)
        } else if k == sys::CHC_MAP {
            Some(Kind::Mapping)
        } else if k == sys::CHC_NESTED {
            Some(Kind::Nested)
        } else if k == sys::CHC_LOW_CARDINALITY {
            Some(Kind::LowCardinality)
        } else if k == sys::CHC_INTERVAL {
            Some(Kind::Interval)
        } else if k == sys::CHC_POINT {
            Some(Kind::Point)
        } else if k == sys::CHC_RING {
            Some(Kind::Ring)
        } else if k == sys::CHC_POLYGON {
            Some(Kind::Polygon)
        } else if k == sys::CHC_MULTI_POLYGON {
            Some(Kind::MultiPolygon)
        } else if k == sys::CHC_VARIANT {
            Some(Kind::Variant)
        } else if k == sys::CHC_DYNAMIC {
            Some(Kind::Dynamic)
        } else if k == sys::CHC_JSON {
            Some(Kind::Json)
        } else if k == sys::CHC_OBJECT {
            Some(Kind::Object)
        } else if k == sys::CHC_AGGREGATE_FUNCTION {
            Some(Kind::AggregateFunction)
        } else if k == sys::CHC_SIMPLE_AGGREGATE_FUNCTION {
            Some(Kind::SimpleAggregateFunction)
        } else if k == sys::CHC_NOTHING {
            Some(Kind::Nothing)
        } else if k == sys::CHC_QBIT {
            Some(Kind::QBit)
        } else {
            None
        }
    }

    /// Kind of code `k`. A code without a kind gives `None`.
    pub fn from_raw(k: sys::chc_kind) -> (found: Option<Self>)
        ensures
            found == Kind::spec_from_raw(k),
    {
        match k {
            sys::CHC_VOID => Some(Kind::Void),
            sys::CHC_INT8 => Some(Kind::Int8),
            sys::CHC_INT16 => Some(Kind::Int16),
            sys::CHC_INT32 => Some(Kind::Int32),
            sys::CHC_INT64 => Some(Kind::Int64),
            sys::CHC_INT128 => Some(Kind::Int128),
            sys::CHC_INT256 => Some(Kind::Int256),
            sys::CHC_UINT8 => Some(Kind::UInt8),
            sys::CHC_UINT16 => Some(Kind::UInt16),
            sys::CHC_UINT32 => Some(Kind::UInt32),
            sys::CHC_UINT64 => Some(Kind::UInt64),
            sys::CHC_UINT128 => Some(Kind::UInt128),
            sys::CHC_UINT256 => Some(Kind::UInt256),
            sys::CHC_FLOAT32 => Some(Kind::Float32),
            sys::CHC_FLOAT64 => Some(Kind::Float64),
            sys::CHC_BFLOAT16 => Some(Kind::BFloat16),
            sys::CHC_BOOL => Some(Kind::Bool),
            sys::CHC_DATE => Some(Kind::Date),
            sys::CHC_DATE32 => Some(Kind::Date32),
            sys::CHC_DATETIME => Some(Kind::DateTime),
            sys::CHC_DATETIME64 => Some(Kind::DateTime64),
            sys::CHC_TIME => Some(Kind::Time),
            sys::CHC_TIME64 => Some(Kind::Time64),
            sys::CHC_STRING => Some(Kind::String),
            sys::CHC_FIXED_STRING => Some(Kind::FixedString),
            sys::CHC_DECIMAL32 => Some(Kind::Decimal32),
            sys::CHC_DECIMAL64 => Some(Kind::Decimal64),
            sys::CHC_DECIMAL128 => Some(Kind::Decimal128),
            sys::CHC_DECIMAL256 => Some(Kind::Decimal256),
            sys::CHC_UUID => Some(Kind::Uuid),
            sys::CHC_IPV4 => Some(Kind::Ipv4),
            sys::CHC_IPV6 => Some(Kind::Ipv6),
            sys::CHC_ENUM8 => Some(Kind::Enum8),
            sys::CHC_ENUM16 => Some(Kind::Enum16),
            sys::CHC_NULLABLE => Some(Kind::Nullable),
            sys::CHC_ARRAY => Some(Kind::Array),
            sys::CHC_TUPLE => Some(Kind::Tuple),
            sys::CHC_MAP => Some(Kind::Mapping),
            sys::CHC_NESTED => Some(Kind::Nested),
            sys::CHC_LOW_CARDINALITY => Some(Kind::LowCardinality),
            sys::CHC_INTERVAL => Some(Kind::Interval),
            sys::CHC_POINT => Some(Kind::Point),
            sys::CHC_RING => Some(Kind::Ring),
            sys::CHC_POLYGON => Some(Kind::Polygon),
            sys::CHC_MULTI_POLYGON => Some(Kind::MultiPolygon),
            sys::CHC_VARIANT => Some(Kind::Variant),
            sys::CHC_DYNAMIC => Some(Kind::Dynamic),
            sys::CHC_JSON => Some(Kind::Json),
            sys::CHC_OBJECT => Some(Kind::Object),
            sys::CHC_AGGREGATE_FUNCTION => Some(Kind::AggregateFunction),
            sys::CHC_SIMPLE_AGGREGATE_FUNCTION => Some(Kind::SimpleAggregateFunction),
            sys::CHC_NOTHING => Some(Kind::Nothing),
            sys::CHC_QBIT => Some(Kind::QBit),
            _ => None,
        }
    }

    /// Code of this kind.
    pub fn code(self) -> (code: sys::chc_kind)
        ensures
            code == self.spec_code(),
    {
        match self {
            Kind::Void => sys::CHC_VOID,
            Kind::Int8 => sys::CHC_INT8,
            Kind::Int16 => sys::CHC_INT16,
            Kind::Int32 => sys::CHC_INT32,
            Kind::Int64 => sys::CHC_INT64,
            Kind::Int128 => sys::CHC_INT128,
            Kind::Int256 => sys::CHC_INT256,
            Kind::UInt8 => sys::CHC_UINT8,
            Kind::UInt16 => sys::CHC_UINT16,
            Kind::UInt32 => sys::CHC_UINT32,
            Kind::UInt64 => sys::CHC_UINT64,
            Kind::UInt128 => sys::CHC_UINT128,
            Kind::UInt256 => sys::CHC_UINT256,
            Kind::Float32 => sys::CHC_FLOAT32,
            Kind::Float64 => sys::CHC_FLOAT64,
            Kind::BFloat16 => sys::CHC_BFLOAT16,
            Kind::Bool => sys::CHC_BOOL,
            Kind::Date => sys::CHC_DATE,
            Kind::Date32 => sys::CHC_DATE32,
            Kind::DateTime => sys::CHC_DATETIME,
            Kind::DateTime64 => sys::CHC_DATETIME64,
            Kind::Time => sys::CHC_TIME,
            Kind::Time64 => sys::CHC_TIME64,
            Kind::String => sys::CHC_STRING,
            Kind::FixedString => sys::CHC_FIXED_STRING,
            Kind::Decimal32 => sys::CHC_DECIMAL32,
            Kind::Decimal64 => sys::CHC_DECIMAL64,
            Kind::Decimal128 => sys::CHC_DECIMAL128,
            Kind::Decimal256 => sys::CHC_DECIMAL256,
            Kind::Uuid => sys::CHC_UUID,
            Kind::Ipv4 => sys::CHC_IPV4,
            Kind::Ipv6 => sys::CHC_IPV6,
            Kind::Enum8 => sys::CHC_ENUM8,
            Kind::Enum16 => sys::CHC_ENUM16,
            Kind::Nullable => sys::CHC_NULLABLE,
            Kind::Array => sys::CHC_ARRAY,
            Kind::Tuple => sys::CHC_TUPLE,
            Kind::Mapping => sys::CHC_MAP,
            Kind::Nested => sys::CHC_NESTED,
            Kind::LowCardinality => sys::CHC_LOW_CARDINALITY,
            Kind::Interval => sys::CHC_INTERVAL,
            Kind::Point => sys::CHC_POINT,
            Kind::Ring => sys::CHC_RING,
            Kind::Polygon => sys::CHC_POLYGON,
            Kind::MultiPolygon => sys::CHC_MULTI_POLYGON,
            Kind::Variant => sys::CHC_VARIANT,
            Kind::Dynamic => sys::CHC_DYNAMIC,
            Kind::Json => sys::CHC_JSON,
            Kind::Object => sys::CHC_OBJECT,
            Kind::AggregateFunction => sys::CHC_AGGREGATE_FUNCTION,
            Kind::SimpleAggregateFunction => sys::CHC_SIMPLE_AGGREGATE_FUNCTION,
            Kind::Nothing => sys::CHC_NOTHING,
            Kind::QBit => sys::CHC_QBIT,
        }
    }
}

/// Unit of an `Interval` type.
#[derive(Debug, Clone, Copy, PartialEq, Eq, Structural)]
pub enum IntervalUnit {
    Nanosecond,
    Microsecond,
    Millisecond,
    Second,
    Minute,
    Hour,
    Day,
    Week,
    Month,
    Quarter,
    Year,
}

impl IntervalUnit {
    /// Code of a unit.
    pub open spec fn spec_code(self) -> sys::chc_interval_unit {
        match self {
            IntervalUnit::Nanosecond => sys::CHC_INTERVAL_NANOSECOND,
            IntervalUnit::Microsecond => sys::CHC_INTERVAL_MICROSECOND,
            IntervalUnit::Millisecond => sys::CHC_INTERVAL_MILLISECOND,
            IntervalUnit::Second => sys::CHC_INTERVAL_SECOND,
            IntervalUnit::Minute => sys::CHC_INTERVAL_MINUTE,
            IntervalUnit::Hour => sys::CHC_INTERVAL_HOUR,
            IntervalUnit::Day => sys::CHC_INTERVAL_DAY,
            IntervalUnit::Week => sys::CHC_INTERVAL_WEEK,
            IntervalUnit::Month => sys::CHC_INTERVAL_MONTH,
            IntervalUnit::Quarter => sys::CHC_INTERVAL_QUARTER,
            IntervalUnit::Year => sys::CHC_INTERVAL_YEAR,
        }
    }

    /// Unit of a code, where there is one.
    pub open spec fn spec_from_raw(u: sys::chc_interval_unit) -> Option<IntervalUnit> {
        if u == sys::CHC_INTERVAL_NANOSECOND {
            Some(IntervalUnit::Nanosecond)
        } else if u == sys::CHC_INTERVAL_MICROSECOND {
            Some(IntervalUnit::Microsecond)
        } else if u == sys::CHC_INTERVAL_MILLISECOND {
            Some(IntervalUnit::Millisecond)
        } else if u == sys::CHC_INTERVAL_SECOND {
            Some(IntervalUnit::Second)
        } else if u == sys::CHC_INTERVAL_MINUTE {
            Some(IntervalUnit::Minute)
        } else if u == sys::CHC_INTERVAL_HOUR {
            Some(IntervalUnit::Hour)
        } else if u == sys::CHC_INTERVAL_DAY {
            Some(IntervalUnit::Day)
        } else if u == sys::CHC_INTERVAL_WEEK {
            Some(IntervalUnit::Week)
        } else if u == sys::CHC_INTERVAL_MONTH {
            Some(IntervalUnit::Month)
        } else if u == sys::CHC_INTERVAL_QUARTER {
            Some(IntervalUnit::Quarter)
        } else if u == sys::CHC_INTERVAL_YEAR {
            Some(IntervalUnit::Year)
        } else {
            None
        }
    }

    /// Unit of code `u`. A code without a unit gives `None`.
    pub fn from_raw(u: sys::chc_interval_unit) -> (found: Option<Self>)
        ensures
            found == IntervalUnit::spec_from_raw(u),
    {
        match u {
            sys::CHC_INTERVAL_NANOSECOND => Some(IntervalUnit::Nanosecond),
            sys::CHC_INTERVAL_MICROSECOND => Some(IntervalUnit::Microsecond),
            sys::CHC_INTERVAL_MILLISECOND => Some(IntervalUnit::Millisecond),
            sys::CHC_INTERVAL_SECOND => Some(IntervalUnit::Second),
            sys::CHC_INTERVAL_MINUTE => Some(IntervalUnit::Minute),
            sys::CHC_INTERVAL_HOUR => Some(IntervalUnit::Hour),
            sys::CHC_INTERVAL_DAY => Some(IntervalUnit::Day),
            sys::CHC_INTERVAL_WEEK => Some(IntervalUnit::Week),
            sys::CHC_INTERVAL_MONTH => Some(IntervalUnit::Month),
            sys::CHC_INTERVAL_QUARTER => Some(IntervalUnit::Quarter),
            sys::CHC_INTERVAL_YEAR => Some(IntervalUnit::Year),
            _ => None,
        }
    }

    /// Code of this unit.
    pub fn code(self) -> (code: sys::chc_interval_unit)
        ensures
            code == self.spec_code(),
    {
        match self {
            IntervalUnit::Nanosecond => sys::CHC_INTERVAL_NANOSECOND,
            IntervalUnit::Microsecond => sys::CHC_INTERVAL_MICROSECOND,
            IntervalUnit::Millisecond => sys::CHC_INTERVAL_MILLISECOND,
            IntervalUnit::Second => sys::CHC_INTERVAL_SECOND,
            IntervalUnit::Minute => sys::CHC_INTERVAL_MINUTE,
            IntervalUnit::Hour => sys::CHC_INTERVAL_HOUR,
            IntervalUnit::Day => sys::CHC_INTERVAL_DAY,
            IntervalUnit::Week => sys::CHC_INTERVAL_WEEK,
            IntervalUnit::Month => sys::CHC_INTERVAL_MONTH,
            IntervalUnit::Quarter => sys::CHC_INTERVAL_QUARTER,
            IntervalUnit::Year => sys::CHC_INTERVAL_YEAR,
        }
    }
}

/// A kind survives the way to its code and back, and no kind has a code that
/// names none.
pub proof fn law_kind_code_round_trip(k: sys::chc_kind, kind: Kind)
    ensures
        Kind::spec_from_raw(kind.spec_code()) == Some(kind),
        Kind::spec_from_raw(k) == Some(kind) <==> kind.spec_code() == k,
{
}

/// An interval unit survives the way to its code and back, no unit has a code
/// that names none, and zero, which marks a type without a unit, names none.
pub proof fn law_unit_code_round_trip(u: sys::chc_interval_unit, unit: IntervalUnit)
    ensures
        IntervalUnit::spec_from_raw(unit.spec_code()) == Some(unit),
        IntervalUnit::spec_from_raw(u) == Some(unit) <==> unit.spec_code() == u,
        IntervalUnit::spec_from_raw(sys::CHC_INTERVAL_NONE) is None,
{
}

/// Kinds that take a precision and a scale.
pub open spec fn is_decimal(k: sys::chc_kind) -> bool {
    k == sys::CHC_DECIMAL32 || k == sys::CHC_DECIMAL64 || k == sys::CHC_DECIMAL128 || k
        == sys::CHC_DECIMAL256
}

/// Kinds that take a subsecond precision.
pub open spec fn is_subsecond(k: sys::chc_kind) -> bool {
    k == sys::CHC_DATETIME64 || k == sys::CHC_TIME64
}

/// Kinds that list named values.
pub open spec fn is_enum(k: sys::chc_kind) -> bool {
    k == sys::CHC_ENUM8 || k == sys::CHC_ENUM16
}

/// Bytes of an optional slice.
pub open spec fn slice_bytes(value: Option<&[u8]>) -> Option<Seq<u8>> {
    match value {
        Some(bytes) => Some(bytes@),
        None => None,
    }
}

fn optional_slice(value: &Option<Vec<u8>>) -> (slice: Option<&[u8]>)
    ensures
        slice_bytes(slice) == text::optional_bytes(*value),
{
    match value {
        Some(bytes) => Some(bytes.as_slice()),
        None => None,
    }
}

/// Parsed ClickHouse type.
pub struct TypeAst {
    pub raw: sys::chc_type,
}

impl TypeAst {
    /// Turns what a parse of a type name reported into its outcome.
    pub fn finish_parse(rc: i32, err: &sys::chc_err, out: Option<sys::chc_type>) -> (result: Result<
        Self,
        Error,
    >)
        requires
            rc == sys::CHC_OK ==> out is Some,
        ensures
            match result {
                Ok(ast) => rc == sys::CHC_OK && out == Some(ast.raw),
                Err(e) => error::checked(rc, *err) == Err::<(), error::ErrorView>(e@),
            },
    {
        match error::check(rc, err) {
            Ok(()) => Ok(TypeAst { raw: out.unwrap() }),
            Err(e) => Err(e),
        }
    }

    /// Returns a borrowed view of parsed type.
    pub fn view(&self) -> (ty: TypeRef<'_>)
        ensures
            *ty.raw == self.raw,
    {
        TypeRef { raw: &self.raw }
    }
}

/// Borrowed view of a ClickHouse type.
#[derive(Clone, Copy)]
pub struct TypeRef<'a> {
    pub raw: &'a sys::chc_type,
}

impl<'a> TypeRef<'a> {
    pub fn kind(&self) -> (kind: Option<Kind>)
        ensures
            kind == Kind::spec_from_raw(self.raw.kind),
    {
        Kind::from_raw(self.raw.kind)
    }

    /// Returns number of child types.
    ///
    /// Child types include array elements, tuple fields, map keys and values,
    /// and inner types of `Nullable` and `LowCardinality`.
    pub fn n_children(&self) -> (n: usize)
        ensures
            n == self.raw.children@.len(),
    {
        self.raw.children.len()
    }

    pub fn child(&self, i: usize) -> (child: Option<TypeRef<'a>>)
        ensures
            match child {
                Some(ty) => i < self.raw.children@.len() && self.raw.children@[i as int] == Some(
                    *ty.raw,
                ),
                None => i < self.raw.children@.len() ==> self.raw.children@[i as int] is None,
            },
    {
        if i < self.raw.children.len() {
            match &self.raw.children[i] {
                Some(raw) => Some(TypeRef { raw }),
                None => None,
            }
        } else {
            None
        }
    }

    /// Returns `N` for `FixedString(N)`, or zero for other types.
    pub fn fixed_size(&self) -> (n: i32)
        ensures
            n == if self.raw.kind == sys::CHC_FIXED_STRING {
                self.raw.fixed_size
            } else {
                0
            },
    {
        if self.raw.kind == sys::CHC_FIXED_STRING {
            self.raw.fixed_size
        } else {
            0
        }
    }

    /// Returns byte width in a [`Fixed`](crate::ColumnLayout::Fixed) column.
    /// Returns zero for types without fixed-width storage.
    pub fn elem_size(&self) -> (n: usize)
        ensures
            n == self.raw.elem_size,
    {
        self.raw.elem_size
    }

    /// Returns `P` for `Decimal(P, S)`, or zero for other types.
    pub fn decimal_precision(&self) -> (precision: i32)
        ensures
            precision == if is_decimal(self.raw.kind) {
                self.raw.decimal_precision
            } else {
                0
            },
    {
        if self.has_decimal() {
            self.raw.decimal_precision
        } else {
            0
        }
    }

    /// Returns `S` for `Decimal(P, S)`, or zero for other types.
    pub fn decimal_scale(&self) -> (scale: i32)
        ensures
            scale == if is_decimal(self.raw.kind) {
                self.raw.decimal_scale
            } else {
                0
            },
    {
        if self.has_decimal() {
            self.raw.decimal_scale
        } else {
            0
        }
    }

    fn has_decimal(&self) -> (answer: bool)
        ensures
            answer == is_decimal(self.raw.kind),
    {
        self.raw.kind == sys::CHC_DECIMAL32 || self.raw.kind == sys::CHC_DECIMAL64 || self.raw.kind
            == sys::CHC_DECIMAL128 || self.raw.kind == sys::CHC_DECIMAL256
    }

    /// Returns subsecond precision for `DateTime64(S)` or `Time64(S)`.
    /// Returns zero for other types.
    pub fn datetime64_scale(&self) -> (scale: i32)
        ensures
            scale == if is_subsecond(self.raw.kind) {
                self.raw.datetime64_scale
            } else {
                0
            },
    {
        if self.raw.kind == sys::CHC_DATETIME64 || self.raw.kind == sys::CHC_TIME64 {
            self.raw.datetime64_scale
        } else {
            0
        }
    }

    /// Returns `N` for `QBit(T, N)`, or zero for other types.
    ///
    /// A QBit column uses [`ColumnLayout::Tuple`](crate::ColumnLayout::Tuple)
    /// with one fixed column per bit in `T`. Columns use most significant bit
    /// first, and each row holds `ceil(N / 8)` bytes.
    pub fn qbit_dimension(&self) -> (dimension: usize)
        ensures
            dimension == if self.raw.kind == sys::CHC_QBIT {
                self.raw.qbit_dimension
            } else {
                0
            },
    {
        if self.raw.kind == sys::CHC_QBIT {
            self.raw.qbit_dimension
        } else {
            0
        }
    }

    /// Returns bit width of `T` in `QBit(T, N)`, or zero for other types.
    /// Supported widths are 16, 32, and 64.
    pub fn qbit_element_size(&self) -> (bits: usize)
        ensures
            bits == if self.raw.kind == sys::CHC_QBIT {
                self.raw.qbit_element_size
            } else {
                0
            },
    {
        if self.raw.kind == sys::CHC_QBIT {
            self.raw.qbit_element_size
        } else {
            0
        }
    }

    /// Returns timezone bytes without UTF-8 validation.
    pub fn timezone(&self) -> (bytes: Option<&'a [u8]>)
        ensures
            slice_bytes(bytes) == text::optional_bytes(self.raw.timezone),
    {
        optional_slice(&self.raw.timezone)
    }

    /// Returns type name bytes without UTF-8 validation.
    pub fn name(&self) -> (bytes: Option<&'a [u8]>)
        ensures
            slice_bytes(bytes) == text::optional_bytes(self.raw.name),
    {
        optional_slice(&self.raw.name)
    }

    /// Number of entries of an enum type, and zero for other types.
    pub open spec fn spec_enum_count(&self) -> nat {
        if is_enum(self.raw.kind) {
            self.raw.enum_entries@.len()
        } else {
            0
        }
    }

    /// Returns number of entries for `Enum8` or `Enum16`.
    /// Returns zero for other types.
    pub fn enum_count(&self) -> (n: usize)
        ensures
            n == self.spec_enum_count(),
    {
        if self.raw.kind == sys::CHC_ENUM8 || self.raw.kind == sys::CHC_ENUM16 {
            self.raw.enum_entries.len()
        } else {
            0
        }
    }

    /// Returns name and value for enum entry at `i`.
    /// Name bytes are not validated as UTF-8.
    pub fn enum_at(&self, i: usize) -> (entry: Option<(&'a [u8], i64)>)
        ensures
            match entry {
                Some((name, value)) => {
                    &&& i < self.spec_enum_count()
                    &&& text::optional_bytes(self.raw.enum_entries@[i as int].name) == Some(name@)
                    &&& value == self.raw.enum_entries@[i as int].value
                },
                None => i < self.spec_enum_count() ==> self.raw.enum_entries@[i as int].name is None,
            },
    {
        if i >= self.enum_count() {
            return None;
        }
        let entry = &self.raw.enum_entries[i];
        match &entry.name {
            Some(name) => Some((name.as_slice(), entry.value)),
            None => None,
        }
    }

    /// Returns tuple field name bytes without UTF-8 validation.
    pub fn tuple_field_name(&self, i: usize) -> (bytes: Option<&'a [u8]>)
        ensures
            slice_bytes(bytes) == if i < self.raw.field_names@.len() {
                text::optional_bytes(self.raw.field_names@[i as int])
            } else {
                None
            },
    {
        if i < self.raw.field_names.len() {
            optional_slice(&self.raw.field_names[i])
        } else {
            None
        }
    }

    /// Formats type as a ClickHouse type name.
    ///
    /// Returns an empty string if required buffer length exceeds `usize`.
    pub fn format(&self) -> (name: String)
        ensures
            name@ == if self.raw.text@.len() == 0 || self.raw.text@.len() + 1 > usize::MAX {
                Seq::empty()
            } else {
                text::decoded(self.raw.text@)
            },
    {
        let needed: usize = self.raw.text.len();
        if needed == 0 {
            return String::new();
        }
        match needed.checked_add(1) {
            Some(_) => text::from_utf8_lossy(self.raw.text.as_slice()),
            None => String::new(),
        }
    }
}

/// Each code names the kind that it is called after, and any other code none.
pub proof fn law_kind_of_each_code(k: sys::chc_kind, found: Option<Kind>)
    requires
        call_ensures(Kind::from_raw, (k,), found),
    ensures
        found == Some(Kind::Void) <==> k == sys::CHC_VOID,
        found == Some(Kind::Int8) <==> k == sys::CHC_INT8,
        found == Some(Kind::Int16) <==> k == sys::CHC_INT16,
        found == Some(Kind::Int32) <==> k == sys::CHC_INT32,
        found == Some(Kind::Int64) <==> k == sys::CHC_INT64,
        found == Some(Kind::Int128) <==> k == sys::CHC_INT128,
        found == Some(Kind::Int256) <==> k == sys::CHC_INT256,
        found == Some(Kind::UInt8) <==> k == sys::CHC_UINT8,
        found == Some(Kind::UInt16) <==> k == sys::CHC_UINT16,
        found == Some(Kind::UInt32) <==> k == sys::CHC_UINT32,
        found == Some(Kind::UInt64) <==> k == sys::CHC_UINT64,
        found == Some(Kind::UInt128) <==> k == sys::CHC_UINT128,
        found == Some(Kind::UInt256) <==> k == sys::CHC_UINT256,
        found == Some(Kind::Float32) <==> k == sys::CHC_FLOAT32,
        found == Some(Kind::Float64) <==> k == sys::CHC_FLOAT64,
        found == Some(Kind::BFloat16) <==> k == sys::CHC_BFLOAT16,
        found == Some(Kind::Bool) <==> k == sys::CHC_BOOL,
        found == Some(Kind::Date) <==> k == sys::CHC_DATE,
        found == Some(Kind::Date32) <==> k == sys::CHC_DATE32,
        found == Some(Kind::DateTime) <==> k == sys::CHC_DATETIME,
        found == Some(Kind::DateTime64) <==> k == sys::CHC_DATETIME64,
        found == Some(Kind::Time) <==> k == sys::CHC_TIME,
        found == Some(Kind::Time64) <==> k == sys::CHC_TIME64,
        found == Some(Kind::String) <==> k == sys::CHC_STRING,
        found == Some(Kind::FixedString) <==> k == sys::CHC_FIXED_STRING,
        found == Some(Kind::Decimal32) <==> k == sys::CHC_DECIMAL32,
        found == Some(Kind::Decimal64) <==> k == sys::CHC_DECIMAL64,
        found == Some(Kind::Decimal128) <==> k == sys::CHC_DECIMAL128,
        found == Some(Kind::Decimal256) <==> k == sys::CHC_DECIMAL256,
        found == Some(Kind::Uuid) <==> k == sys::CHC_UUID,
        found == Some(Kind::Ipv4) <==> k == sys::CHC_IPV4,
        found == Some(Kind::Ipv6) <==> k == sys::CHC_IPV6,
        found == Some(Kind::Enum8) <==> k == sys::CHC_ENUM8,
        found == Some(Kind::Enum16) <==> k == sys::CHC_ENUM16,
        found == Some(Kind::Nullable) <==> k == sys::CHC_NULLABLE,
        found == Some(Kind::Array) <==> k == sys::CHC_ARRAY,
        found == Some(Kind::Tuple) <==> k == sys::CHC_TUPLE,
        found == Some(Kind::Mapping) <==> k == sys::CHC_MAP,
        found == Some(Kind::Nested) <==> k == sys::CHC_NESTED,
        found == Some(Kind::LowCardinality) <==> k == sys::CHC_LOW_CARDINALITY,
        found == Some(Kind::Interval) <==> k == sys::CHC_INTERVAL,
        found == Some(Kind::Point) <==> k == sys::CHC_POINT,
        found == Some(Kind::Ring) <==> k == sys::CHC_RING,
        found == Some(Kind::Polygon) <==> k == sys::CHC_POLYGON,
        found == Some(Kind::MultiPolygon) <==> k == sys::CHC_MULTI_POLYGON,
        found == Some(Kind::Variant) <==> k == sys::CHC_VARIANT,
        found == Some(Kind::Dynamic) <==> k == sys::CHC_DYNAMIC,
        found == Some(Kind::Json) <==> k == sys::CHC_JSON,
        found == Some(Kind::Object) <==> k == sys::CHC_OBJECT,
        found == Some(Kind::AggregateFunction) <==> k == sys::CHC_AGGREGATE_FUNCTION,
        found == Some(Kind::SimpleAggregateFunction) <==> k == sys::CHC_SIMPLE_AGGREGATE_FUNCTION,
        found == Some(Kind::Nothing) <==> k == sys::CHC_NOTHING,
        found == Some(Kind::QBit) <==> k == sys::CHC_QBIT,
{
}

/// Each kind has the code that is called after it.
pub proof fn law_code_of_each_kind(kind: Kind, code: sys::chc_kind)
    requires
        call_ensures(Kind::code, (kind,), code),
    ensures
        kind == Kind::Void ==> code == sys::CHC_VOID,
        kind == Kind::Int8 ==> code == sys::CHC_INT8,
        kind == Kind::Int16 ==> code == sys::CHC_INT16,
        kind == Kind::Int32 ==> code == sys::CHC_INT32,
        kind == Kind::Int64 ==> code == sys::CHC_INT64,
        kind == Kind::Int128 ==> code == sys::CHC_INT128,
        kind == Kind::Int256 ==> code == sys::CHC_INT256,
        kind == Kind::UInt8 ==> code == sys::CHC_UINT8,
        kind == Kind::UInt16 ==> code == sys::CHC_UINT16,
        kind == Kind::UInt32 ==> code == sys::CHC_UINT32,
        kind == Kind::UInt64 ==> code == sys::CHC_UINT64,
        kind == Kind::UInt128 ==> code == sys::CHC_UINT128,
        kind == Kind::UInt256 ==> code == sys::CHC_UINT256,
        kind == Kind::Float32 ==> code == sys::CHC_FLOAT32,
        kind == Kind::Float64 ==> code == sys::CHC_FLOAT64,
        kind == Kind::BFloat16 ==> code == sys::CHC_BFLOAT16,
        kind == Kind::Bool ==> code == sys::CHC_BOOL,
        kind == Kind::Date ==> code == sys::CHC_DATE,
        kind == Kind::Date32 ==> code == sys::CHC_DATE32,
        kind == Kind::DateTime ==> code == sys::CHC_DATETIME,
        kind == Kind::DateTime64 ==> code == sys::CHC_DATETIME64,
        kind == Kind::Time ==> code == sys::CHC_TIME,
        kind == Kind::Time64 ==> code == sys::CHC_TIME64,
        kind == Kind::String ==> code == sys::CHC_STRING,
        kind == Kind::FixedString ==> code == sys::CHC_FIXED_STRING,
        kind == Kind::Decimal32 ==> code == sys::CHC_DECIMAL32,
        kind == Kind::Decimal64 ==> code == sys::CHC_DECIMAL64,
        kind == Kind::Decimal128 ==> code == sys::CHC_DECIMAL128,
        kind == Kind::Decimal256 ==> code == sys::CHC_DECIMAL256,
        kind == Kind::Uuid ==> code == sys::CHC_UUID,
        kind == Kind::Ipv4 ==> code == sys::CHC_IPV4,
        kind == Kind::Ipv6 ==> code == sys::CHC_IPV6,
        kind == Kind::Enum8 ==> code == sys::CHC_ENUM8,
        kind == Kind::Enum16 ==> code == sys::CHC_ENUM16,
        kind == Kind::Nullable ==> code == sys::CHC_NULLABLE,
        kind == Kind::Array ==> code == sys::CHC_ARRAY,
        kind == Kind::Tuple ==> code == sys::CHC_TUPLE,
        kind == Kind::Mapping ==> code == sys::CHC_MAP,
        kind == Kind::Nested ==> code == sys::CHC_NESTED,
        kind == Kind::LowCardinality ==> code == sys::CHC_LOW_CARDINALITY,
        kind == Kind::Interval ==> code == sys::CHC_INTERVAL,
        kind == Kind::Point ==> code == sys::CHC_POINT,
        kind == Kind::Ring ==> code == sys::CHC_RING,
        kind == Kind::Polygon ==> code == sys::CHC_POLYGON,
        kind == Kind::MultiPolygon ==> code == sys::CHC_MULTI_POLYGON,
        kind == Kind::Variant ==> code == sys::CHC_VARIANT,
        kind == Kind::Dynamic ==> code == sys::CHC_DYNAMIC,
        kind == Kind::Json ==> code == sys::CHC_JSON,
        kind == Kind::Object ==> code == sys::CHC_OBJECT,
        kind == Kind::AggregateFunction ==> code == sys::CHC_AGGREGATE_FUNCTION,
        kind == Kind::SimpleAggregateFunction ==> code == sys::CHC_SIMPLE_AGGREGATE_FUNCTION,
        kind == Kind::Nothing ==> code == sys::CHC_NOTHING,
        kind == Kind::QBit ==> code == sys::CHC_QBIT,
{
}

/// Each code names the unit that it is called after, and any other code none,
/// zero among them.
pub proof fn law_unit_of_each_code(k: sys::chc_interval_unit, found: Option<IntervalUnit>)
    requires
        call_ensures(IntervalUnit::from_raw, (k,), found),
    ensures
        found == Some(IntervalUnit::Nanosecond) <==> k == sys::CHC_INTERVAL_NANOSECOND,
        found == Some(IntervalUnit::Microsecond) <==> k == sys::CHC_INTERVAL_MICROSECOND,
        found == Some(IntervalUnit::Millisecond) <==> k == sys::CHC_INTERVAL_MILLISECOND,
        found == Some(IntervalUnit::Second) <==> k == sys::CHC_INTERVAL_SECOND,
        found == Some(IntervalUnit::Minute) <==> k == sys::CHC_INTERVAL_MINUTE,
        found == Some(IntervalUnit::Hour) <==> k == sys::CHC_INTERVAL_HOUR,
        found == Some(IntervalUnit::Day) <==> k == sys::CHC_INTERVAL_DAY,
        found == Some(IntervalUnit::Week) <==> k == sys::CHC_INTERVAL_WEEK,
        found == Some(IntervalUnit::Month) <==> k == sys::CHC_INTERVAL_MONTH,
        found == Some(IntervalUnit::Quarter) <==> k == sys::CHC_INTERVAL_QUARTER,
        found == Some(IntervalUnit::Year) <==> k == sys::CHC_INTERVAL_YEAR,
        k == 0 ==> found is None,
{
}

/// Each unit has the code that is called after it.
pub proof fn law_code_of_each_unit(unit: IntervalUnit, code: sys::chc_interval_unit)
    requires
        call_ensures(IntervalUnit::code, (unit,), code),
    ensures
        unit == IntervalUnit::Nanosecond ==> code == sys::CHC_INTERVAL_NANOSECOND,
        unit == IntervalUnit::Microsecond ==> code == sys::CHC_INTERVAL_MICROSECOND,
        unit == IntervalUnit::Millisecond ==> code == sys::CHC_INTERVAL_MILLISECOND,
        unit == IntervalUnit::Second ==> code == sys::CHC_INTERVAL_SECOND,
        unit == IntervalUnit::Minute ==> code == sys::CHC_INTERVAL_MINUTE,
        unit == IntervalUnit::Hour ==> code == sys::CHC_INTERVAL_HOUR,
        unit == IntervalUnit::Day ==> code == sys::CHC_INTERVAL_DAY,
        unit == IntervalUnit::Week ==> code == sys::CHC_INTERVAL_WEEK,
        unit == IntervalUnit::Month ==> code == sys::CHC_INTERVAL_MONTH,
        unit == IntervalUnit::Quarter ==> code == sys::CHC_INTERVAL_QUARTER,
        unit == IntervalUnit::Year ==> code == sys::CHC_INTERVAL_YEAR,
{
}

/// A parse succeeds exactly where its code is that of success, and then gives
/// the type that was parsed. Any other code is the error that the code and the
/// record describe.
pub proof fn law_parse_succeeds_by_its_code(
    rc: i32,
    err: sys::chc_err,
    out: Option<sys::chc_type>,
    result: Result<TypeAst, Error>,
    failure: Error,
)
    requires
        call_ensures(TypeAst::finish_parse, (rc, &err, out), result),
        call_ensures(Error::from_raw, (rc, &err), failure),
    ensures
        result is Ok <==> rc == sys::CHC_OK,
        match result {
            Ok(ast) => out == Some(ast.raw),
            Err(e) => e.kind == failure.kind && e.message@ == failure.message@ && e.server_code
                == failure.server_code && e.server_name@ == failure.server_name@
                && e.kind.spec_code() == rc,
        },
{
}

/// A view of a parsed type shows that type.
pub proof fn law_view_shows_the_type<'a>(ast: &'a TypeAst, ty: TypeRef<'a>)
    requires
        call_ensures(TypeAst::view, (ast,), ty),
    ensures
        *ty.raw == ast.raw,
{
}

/// A type is of the kind that its code names.
pub proof fn law_type_is_of_the_kind_of_its_code(
    ty: TypeRef<'_>,
    kind: Option<Kind>,
    found: Option<Kind>,
)
    requires
        call_ensures(TypeRef::kind, (&ty,), kind),
        call_ensures(Kind::from_raw, (ty.raw.kind,), found),
    ensures
        kind == found,
        kind matches Some(k) ==> k.spec_code() == ty.raw.kind,
        kind == Some(Kind::Int64) <==> ty.raw.kind == sys::CHC_INT64,
        kind == Some(Kind::UInt64) <==> ty.raw.kind == sys::CHC_UINT64,
{
    if let Some(k) = kind {
        law_kind_code_round_trip(ty.raw.kind, k);
    }
}

/// A type counts its children and hands out the one at each place. A missing
/// child and a place without one give none.
pub proof fn law_children_are_handed_out_by_place<'a>(
    ty: TypeRef<'a>,
    n: usize,
    i: usize,
    child: Option<TypeRef<'a>>,
)
    requires
        call_ensures(TypeRef::n_children, (&ty,), n),
        call_ensures(TypeRef::child, (&ty, i), child),
    ensures
        n == ty.raw.children@.len(),
        child matches Some(c) ==> i < n && ty.raw.children@[i as int] == Some(*c.raw),
        child is Some <==> i < n && ty.raw.children@[i as int] is Some,
{
}

/// Each number of a type is the recorded one for the kinds that have it, and
/// zero for all others.
pub proof fn law_numbers_belong_to_their_kinds(
    ty: TypeRef<'_>,
    size: i32,
    precision: i32,
    scale: i32,
    subsecond: i32,
    dimension: usize,
    bits: usize,
    width: usize,
)
    requires
        call_ensures(TypeRef::fixed_size, (&ty,), size),
        call_ensures(TypeRef::decimal_precision, (&ty,), precision),
        call_ensures(TypeRef::decimal_scale, (&ty,), scale),
        call_ensures(TypeRef::datetime64_scale, (&ty,), subsecond),
        call_ensures(TypeRef::qbit_dimension, (&ty,), dimension),
        call_ensures(TypeRef::qbit_element_size, (&ty,), bits),
        call_ensures(TypeRef::elem_size, (&ty,), width),
    ensures
        width == ty.raw.elem_size,
        ty.raw.kind == sys::CHC_FIXED_STRING ==> size == ty.raw.fixed_size,
        ty.raw.kind != sys::CHC_FIXED_STRING ==> size == 0,
        ty.raw.kind == sys::CHC_DECIMAL32 || ty.raw.kind == sys::CHC_DECIMAL64 || ty.raw.kind
            == sys::CHC_DECIMAL128 || ty.raw.kind == sys::CHC_DECIMAL256 ==> precision
            == ty.raw.decimal_precision && scale == ty.raw.decimal_scale,
        ty.raw.kind != sys::CHC_DECIMAL32 && ty.raw.kind != sys::CHC_DECIMAL64 && ty.raw.kind
            != sys::CHC_DECIMAL128 && ty.raw.kind != sys::CHC_DECIMAL256 ==> precision == 0
            && scale == 0,
        ty.raw.kind == sys::CHC_DATETIME64 || ty.raw.kind == sys::CHC_TIME64 ==> subsecond
            == ty.raw.datetime64_scale,
        ty.raw.kind != sys::CHC_DATETIME64 && ty.raw.kind != sys::CHC_TIME64 ==> subsecond == 0,
        ty.raw.kind == sys::CHC_QBIT ==> dimension == ty.raw.qbit_dimension && bits
            == ty.raw.qbit_element_size,
        ty.raw.kind != sys::CHC_QBIT ==> dimension == 0 && bits == 0,
{
}

/// Whether a slice is handed out where bytes are recorded, and then the same
/// bytes.
pub open spec fn hands_out(value: Option<Vec<u8>>, slice: Option<&[u8]>) -> bool {
    match (value, slice) {
        (Some(v), Some(bytes)) => bytes@ == v@,
        (None, None) => true,
        _ => false,
    }
}

/// Names of a type are handed out byte for byte: the type name, the time zone,
/// and the name of each tuple field.
pub proof fn law_names_are_handed_out_whole<'a>(
    ty: TypeRef<'a>,
    name: Option<&'a [u8]>,
    zone: Option<&'a [u8]>,
    i: usize,
    field: Option<&'a [u8]>,
)
    requires
        call_ensures(TypeRef::name, (&ty,), name),
        call_ensures(TypeRef::timezone, (&ty,), zone),
        call_ensures(TypeRef::tuple_field_name, (&ty, i), field),
    ensures
        hands_out(ty.raw.name, name),
        hands_out(ty.raw.timezone, zone),
        i < ty.raw.field_names@.len() ==> hands_out(ty.raw.field_names@[i as int], field),
        i >= ty.raw.field_names@.len() ==> field is None,
{
}

/// An enum type counts its entries and hands out the name and the value of the
/// one at each place. Another type has none.
pub proof fn law_enum_entries_are_handed_out_by_place<'a>(
    ty: TypeRef<'a>,
    n: usize,
    i: usize,
    entry: Option<(&'a [u8], i64)>,
)
    requires
        call_ensures(TypeRef::enum_count, (&ty,), n),
        call_ensures(TypeRef::enum_at, (&ty, i), entry),
    ensures
        ty.raw.kind == sys::CHC_ENUM8 || ty.raw.kind == sys::CHC_ENUM16 ==> n
            == ty.raw.enum_entries@.len(),
        ty.raw.kind != sys::CHC_ENUM8 && ty.raw.kind != sys::CHC_ENUM16 ==> n == 0,
        entry is Some <==> i < n && ty.raw.enum_entries@[i as int].name is Some,
        entry matches Some((name, value)) ==> {
            &&& ty.raw.enum_entries@[i as int].name matches Some(v)
            &&& name@ == v@
            &&& value == ty.raw.enum_entries@[i as int].value
        },
{
}

/// A type is shown as the text that is recorded for it, and as nothing where
/// that is too long for a buffer.
pub proof fn law_type_is_shown_as_its_text(ty: TypeRef<'_>, shown: String)
    requires
        call_ensures(TypeRef::format, (&ty,), shown),
    ensures
        ty.raw.text@.len() == 0 || ty.raw.text@.len() >= usize::MAX ==> shown@.len() == 0,
        0 < ty.raw.text@.len() < usize::MAX ==> text::shows(ty.raw.text@, shown@),
{
}

} // verus!
