//! Verified core of a ClickHouse client.
//!
//! The crate holds what a client of the Native format and of the native TCP
//! protocol decides and computes on its own, around the clickhouse-c library,
//! which encodes and decodes bytes:
//!
//! * [`ColumnBuilder`] and [`BlockBuilder`] check and describe columns over
//!   borrowed data.
//! * [`Block`], [`Column`] and [`TypeRef`] give access to decoded data, and
//!   [`Block::validate`] tells whether its offsets and keys can be used as
//!   indexes.
//! * [`ClientOpts`] and [`QueryOpts`] are checked and converted before they are
//!   sent. [`Event`] is what a received packet says.
//! * [`Step`] and [`Pump`] order the work of clients that do their own I/O.
//! * [`tls`] holds peer names, roots and errors of TLS transports.
//!
//! Records of the C interface are plain values in [`sys`]. Code that talks to
//! the C library fills and reads them.
//!
//! Decoding does not automatically validate relationships between nested
//! columns. Call [`Block::validate`] before using offsets or dictionary keys
//! from untrusted input as indexes.

#![allow(non_camel_case_types)]

use vstd::prelude::*;

pub mod async_client;
pub mod block;
pub mod builder;
pub mod client;
pub mod codec;
pub mod column;
pub mod error;
pub mod io;
pub mod ioless;
pub mod query;
pub mod sys;
pub mod text;
pub mod tls;
pub mod types;

pub use async_client::{Action, Pump};
pub use block::{Block, BlockOpts};
pub use builder::{BlockBuilder, ColumnBuilder};
pub use client::{ClientOpts, Event, Exception, PacketKind, ProfileInfo, Progress, ServerInfo};
pub use codec::{Codec, Compression};
pub use column::{Column, ColumnLayout, LowCardinalityView};
pub use error::{Error, ErrorKind};
pub use io::{CancelToken, SliceIo};
pub use ioless::Step;
pub use query::{QueryOpts, QueryParam, QuerySetting};
pub use types::{IntervalUnit, Kind, TypeAst, TypeRef};

verus! {

/// clickhouse-c revision whose interface [`sys`] describes.
pub const UPSTREAM_REVISION: &'static str = "87d30a2ce3580cded1c794c7579fb8be8ea1c00b";

} // verus!
