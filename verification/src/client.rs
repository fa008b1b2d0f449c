//! Client settings, server events, and the outcomes of client operations.

use vstd::prelude::*;
use vstd::string::*;

use crate::block::Block;
use crate::codec::{Codec, Compression};
use crate::error;
use crate::error::{Error, ErrorKind};
use crate::query;
use crate::query::cstring;
use crate::sys;
use crate::text;

verus! {

/// What [`ClientOpts`] say.
#[verifier::ext_equal]
pub struct ClientOptsView {
    pub client_name: Option<Seq<char>>,
    pub database: Option<Seq<char>>,
    pub user: Option<Seq<char>>,
    pub password: Option<Seq<char>>,
    pub client_version_major: u64,
    pub client_version_minor: u64,
    pub client_version_patch: u64,
    pub client_revision: u64,
    pub compression: Compression,
    pub read_buffer_bytes: usize,
}

/// Text of an optional string.
pub open spec fn optional_text(value: Option<String>) -> Option<Seq<char>> {
    match value {
        Some(s) => Some(s@),
        None => None,
    }
}

/// Client settings sent during Hello handshake.
///
/// String values are copied and null-terminated during connection. Interior
/// null bytes return [`ErrorKind::Usage`].
#[derive(Clone, Debug)]
pub struct ClientOpts {
    pub client_name: Option<String>,
    pub database: Option<String>,
    pub user: Option<String>,
    pub password: Option<String>,
    /// Client version reported in `system.query_log`. Default is 0.0.0.
    pub client_version_major: u64,
    pub client_version_minor: u64,
    pub client_version_patch: u64,
    /// Requested native protocol revision. Zero uses default revision. Server
    /// limits negotiated revision to its supported value.
    pub client_revision: u64,
    pub compression: Compression,
    /// Read buffer size in bytes. Zero selects 8 KiB default.
    pub read_buffer_bytes: usize,
}

impl View for ClientOpts {
    type V = ClientOptsView;

    open spec fn view(&self) -> ClientOptsView {
        ClientOptsView {
            client_name: optional_text(self.client_name),
            database: optional_text(self.database),
            user: optional_text(self.user),
            password: optional_text(self.password),
            client_version_major: self.client_version_major,
            client_version_minor: self.client_version_minor,
            client_version_patch: self.client_version_patch,
            client_revision: self.client_revision,
            compression: self.compression,
            read_buffer_bytes: self.read_buffer_bytes,
        }
    }
}

/// Settings for `default` user and database, empty password, and no
/// compression.
pub open spec fn default_client_opts() -> ClientOptsView {
    ClientOptsView {
        client_name: None,
        database: None,
        user: None,
        password: None,
        client_version_major: 0,
        client_version_minor: 0,
        client_version_patch: 0,
        client_revision: 0,
        compression: Compression::Uncompressed,
        read_buffer_bytes: 0,
    }
}

/// Null-terminated form of an optional text.
pub open spec fn raw_field(label: Seq<char>, value: Option<Seq<char>>) -> Result<
    Option<Seq<u8>>,
    error::ErrorView,
> {
    match value {
        None => Ok(None),
        Some(s) => match query::c_string_of(label, s) {
            Ok(bytes) => Ok(Some(bytes)),
            Err(e) => Err(e),
        },
    }
}

/// What a record of client settings holds.
#[verifier::ext_equal]
pub struct RawClientOptsView {
    pub client_name: Option<Seq<u8>>,
    pub client_version_major: u64,
    pub client_version_minor: u64,
    pub client_version_patch: u64,
    pub client_revision: u64,
    pub database: Option<Seq<u8>>,
    pub user: Option<Seq<u8>>,
    pub password: Option<Seq<u8>>,
    pub compression: sys::chc_compression,
    pub codec: Option<sys::chc_codec>,
    pub read_buffer_bytes: usize,
}

impl View for sys::chc_client_opts {
    type V = RawClientOptsView;

    open spec fn view(&self) -> RawClientOptsView {
        RawClientOptsView {
            client_name: text::optional_bytes(self.client_name),
            client_version_major: self.client_version_major,
            client_version_minor: self.client_version_minor,
            client_version_patch: self.client_version_patch,
            client_revision: self.client_revision,
            database: text::optional_bytes(self.database),
            user: text::optional_bytes(self.user),
            password: text::optional_bytes(self.password),
            compression: self.compression,
            codec: self.codec,
            read_buffer_bytes: self.read_buffer_bytes,
        }
    }
}

/// Record of client settings. The first text with a null byte decides the
/// error: client name, database, user, password.
pub open spec fn raw_client_opts(opts: ClientOptsView, codec: Option<sys::chc_codec>) -> Result<
    RawClientOptsView,
    error::ErrorView,
> {
    match raw_field("client name"@, opts.client_name) {
        Err(e) => Err(e),
        Ok(client_name) => match raw_field("database"@, opts.database) {
            Err(e) => Err(e),
            Ok(database) => match raw_field("user"@, opts.user) {
                Err(e) => Err(e),
                Ok(user) => match raw_field("password"@, opts.password) {
                    Err(e) => Err(e),
                    Ok(password) => Ok(
                        RawClientOptsView {
                            client_name,
                            client_version_major: opts.client_version_major,
                            client_version_minor: opts.client_version_minor,
                            client_version_patch: opts.client_version_patch,
                            client_revision: opts.client_revision,
                            database,
                            user,
                            password,
                            compression: opts.compression.spec_code(),
                            codec,
                            read_buffer_bytes: opts.read_buffer_bytes,
                        },
                    ),
                },
            },
        },
    }
}

/// Outcome of a check of `codec` against the algorithm that it has to serve.
pub open spec fn codec_check(compression: Compression, codec: Option<sys::chc_codec>) -> Result<
    (),
    error::ErrorView,
> {
    if compression == Compression::Uncompressed {
        Ok(())
    } else {
        match codec {
            None => Err(
                error::usage_error(compression.spec_name() + " compression requires a codec"@),
            ),
            Some(raw) => if Codec::spec_supports(raw, compression) {
                Ok(())
            } else {
                Err(
                    error::usage_error(
                        "codec does not support "@ + compression.spec_name() + " compression"@,
                    ),
                )
            },
        }
    }
}

/// Callback table of an optional codec.
pub open spec fn codec_table(codec: Option<&Codec>) -> Option<sys::chc_codec> {
    match codec {
        Some(c) => Some(c.raw),
        None => None,
    }
}

/// Record with which a connection starts, or the reason why it does not.
pub open spec fn prepared(opts: ClientOptsView, codec: Option<sys::chc_codec>) -> Result<
    RawClientOptsView,
    error::ErrorView,
> {
    match codec_check(opts.compression, codec) {
        Err(e) => Err(e),
        Ok(()) => raw_client_opts(opts, codec),
    }
}

/// Outcome that gives a record of client settings, taken by its view.
pub open spec fn opts_outcome(result: Result<RawClientOpts, Error>) -> Result<
    RawClientOptsView,
    error::ErrorView,
> {
    match result {
        Ok(converted) => Ok(converted.raw@),
        Err(e) => Err(e@),
    }
}

/// Owns null-terminated client strings.
pub struct RawClientOpts {
    pub raw: sys::chc_client_opts,
}

impl RawClientOpts {
    /// Record behind these settings.
    pub fn as_raw(&self) -> (raw: &sys::chc_client_opts)
        ensures
            *raw == self.raw,
    {
        &self.raw
    }
}

fn field(label: &str, value: &Option<String>) -> (result: Result<Option<Vec<u8>>, Error>)
    ensures
        match result {
            Ok(bytes) => raw_field(label@, optional_text(*value)) == Ok::<
                Option<Seq<u8>>,
                error::ErrorView,
            >(text::optional_bytes(bytes)),
            Err(e) => raw_field(label@, optional_text(*value)) == Err::<
                Option<Seq<u8>>,
                error::ErrorView,
            >(e@),
        },
{
    match value {
        None => Ok(None),
        Some(s) => match cstring(label, s.as_str()) {
            Ok(bytes) => Ok(Some(bytes)),
            Err(e) => Err(e),
        },
    }
}

impl Default for ClientOpts {
    fn default() -> (opts: Self)
        ensures
            opts@ == default_client_opts(),
    {
        ClientOpts {
            client_name: None,
            database: None,
            user: None,
            password: None,
            client_version_major: 0,
            client_version_minor: 0,
            client_version_patch: 0,
            client_revision: 0,
            compression: Compression::Uncompressed,
            read_buffer_bytes: 0,
        }
    }
}

impl ClientOpts {
    /// Creates settings for `default` user and database, empty password, and
    /// no compression.
    pub fn new() -> (opts: Self)
        ensures
            opts@ == default_client_opts(),
    {
        ClientOpts::default()
    }

    /// Sets client name. Default is `"clickhouse-c"`.
    pub fn client_name(self, s: &str) -> (opts: Self)
        ensures
            opts@ == (ClientOptsView { client_name: Some(s@), ..self@ }),
    {
        let mut opts = self;
        opts.client_name = Some(s.to_owned());
        opts
    }

    /// Sets default database for unqualified table names.
    pub fn database(self, s: &str) -> (opts: Self)
        ensures
            opts@ == (ClientOptsView { database: Some(s@), ..self@ }),
    {
        let mut opts = self;
        opts.database = Some(s.to_owned());
        opts
    }

    /// Sets account name used for authentication.
    pub fn user(self, s: &str) -> (opts: Self)
        ensures
            opts@ == (ClientOptsView { user: Some(s@), ..self@ }),
    {
        let mut opts = self;
        opts.user = Some(s.to_owned());
        opts
    }

    /// Sets authentication password.
    ///
    /// Native protocol sends password as clear text inside Hello message. Use
    /// TLS when transport is not trusted.
    pub fn password(self, s: &str) -> (opts: Self)
        ensures
            opts@ == (ClientOptsView { password: Some(s@), ..self@ }),
    {
        let mut opts = self;
        opts.password = Some(s.to_owned());
        opts
    }

    /// Sets reported client version.
    pub fn client_version(self, major: u64, minor: u64, patch: u64) -> (opts: Self)
        ensures
            opts@ == (ClientOptsView {
                client_version_major: major,
                client_version_minor: minor,
                client_version_patch: patch,
                ..self@
            }),
    {
        let mut opts = self;
        opts.client_version_major = major;
        opts.client_version_minor = minor;
        opts.client_version_patch = patch;
        opts
    }

    /// Sets requested protocol revision.
    pub fn client_revision(self, revision: u64) -> (opts: Self)
        ensures
            opts@ == (ClientOptsView { client_revision: revision, ..self@ }),
    {
        let mut opts = self;
        opts.client_revision = revision;
        opts
    }

    /// Sets compression algorithm.
    ///
    /// Compressed connections require a matching [`Codec`].
    pub fn compression(self, compression: Compression) -> (opts: Self)
        ensures
            opts@ == (ClientOptsView { compression, ..self@ }),
    {
        let mut opts = self;
        opts.compression = compression;
        opts
    }

    /// Converts settings. The first text that holds a null byte is reported.
    pub fn to_raw(&self, codec: Option<&Codec>) -> (result: Result<RawClientOpts, Error>)
        ensures
            opts_outcome(result) == raw_client_opts(self@, codec_table(codec)),
    {
        let client_name = match field("client name", &self.client_name) {
            Ok(bytes) => bytes,
            Err(e) => {
                return Err(e);
            },
        };
        let database = match field("database", &self.database) {
            Ok(bytes) => bytes,
            Err(e) => {
                return Err(e);
            },
        };
        let user = match field("user", &self.user) {
            Ok(bytes) => bytes,
            Err(e) => {
                return Err(e);
            },
        };
        let password = match field("password", &self.password) {
            Ok(bytes) => bytes,
            Err(e) => {
                return Err(e);
            },
        };
        let table = match codec {
            Some(c) => Some(c.raw),
            None => None,
        };
        Ok(
            RawClientOpts {
                raw: sys::chc_client_opts {
                    client_name,
                    client_version_major: self.client_version_major,
                    client_version_minor: self.client_version_minor,
                    client_version_patch: self.client_version_patch,
                    client_revision: self.client_revision,
                    database,
                    user,
                    password,
                    compression: self.compression.code(),
                    codec: table,
                    read_buffer_bytes: self.read_buffer_bytes,
                },
            },
        )
    }

    /// Checks that `codec` serves the selected compression algorithm.
    pub fn validate_codec(&self, codec: Option<&Codec>) -> (result: Result<(), Error>)
        ensures
            error::outcome(result) == codec_check(self@.compression, codec_table(codec)),
    {
        if self.compression == Compression::Uncompressed {
            return Ok(());
        }
        match codec {
            None => {
                let mut message = self.compression.name().to_owned();
                message.append(" compression requires a codec");
                Err(Error::usage(message))
            },
            Some(c) => {
                if c.supports(self.compression) {
                    Ok(())
                } else {
                    let mut message = "codec does not support ".to_owned();
                    message.append(self.compression.name());
                    message.append(" compression");
                    Err(Error::usage(message))
                }
            },
        }
    }

    /// Checks and converts settings before a connection starts.
    pub fn prepare(&self, codec: Option<&Codec>) -> (result: Result<RawClientOpts, Error>)
        ensures
            opts_outcome(result) == prepared(self@, codec_table(codec)),
    {
        match self.validate_codec(codec) {
            Ok(()) => self.to_raw(codec),
            Err(e) => Err(e),
        }
    }
}

/// A connection that starts has a codec with every callback that its
/// compression algorithm needs.
pub proof fn law_prepared_codec_serves_compression(
    opts: ClientOptsView,
    codec: Option<sys::chc_codec>,
)
    requires
        prepared(opts, codec) is Ok,
    ensures
        opts.compression == Compression::Uncompressed || (codec matches Some(raw) && Codec::spec_supports(
            raw,
            opts.compression,
        )),
{
}

/// Where the codec serves the selected compression, settings are refused
/// exactly where a text holds a null byte.
pub proof fn law_prepare_refuses_nul(opts: ClientOptsView, codec: Option<sys::chc_codec>)
    requires
        codec_check(opts.compression, codec) is Ok,
    ensures
        prepared(opts, codec) is Err <==> {
            ||| opts.client_name matches Some(s) && vstd::utf8::encode_utf8(s).contains(0)
            ||| opts.database matches Some(s) && vstd::utf8::encode_utf8(s).contains(0)
            ||| opts.user matches Some(s) && vstd::utf8::encode_utf8(s).contains(0)
            ||| opts.password matches Some(s) && vstd::utf8::encode_utf8(s).contains(0)
        },
{
    if let Some(s) = opts.client_name {
        query::law_c_string_refuses_nul("client name"@, s);
    }
    if let Some(s) = opts.database {
        query::law_c_string_refuses_nul("database"@, s);
    }
    if let Some(s) = opts.user {
        query::law_c_string_refuses_nul("user"@, s);
    }
    if let Some(s) = opts.password {
        query::law_c_string_refuses_nul("password"@, s);
    }
}

/// What a null-terminated field of settings holds is the text that was set.
pub open spec fn reads_back(field: Option<Seq<u8>>, value: Option<Seq<char>>) -> bool {
    match (field, value) {
        (Some(bytes), Some(s)) => bytes.take(text::first_nul(bytes) as int)
            == vstd::utf8::encode_utf8(s),
        (None, None) => true,
        _ => false,
    }
}

/// A reader that stops at the first null byte finds each text that was set, and
/// a text that was not set is missing.
pub proof fn law_client_strings_read_back(opts: ClientOptsView, codec: Option<sys::chc_codec>)
    ensures
        prepared(opts, codec) matches Ok(raw) ==> {
            &&& reads_back(raw.client_name, opts.client_name)
            &&& reads_back(raw.database, opts.database)
            &&& reads_back(raw.user, opts.user)
            &&& reads_back(raw.password, opts.password)
        },
{
    if let Some(s) = opts.client_name {
        query::law_c_string_reads_back("client name"@, s);
    }
    if let Some(s) = opts.database {
        query::law_c_string_reads_back("database"@, s);
    }
    if let Some(s) = opts.user {
        query::law_c_string_reads_back("user"@, s);
    }
    if let Some(s) = opts.password {
        query::law_c_string_reads_back("password"@, s);
    }
}

/// Server information received during Hello handshake.
#[derive(Debug, Clone)]
pub struct ServerInfo {
    pub name: String,
    pub timezone: String,
    pub display_name: String,
    pub version_major: u64,
    pub version_minor: u64,
    pub version_patch: u64,
    pub revision: u64,
}

impl ServerInfo {
    /// Reads server information.
    pub fn from_raw(raw: &sys::chc_server_info) -> (info: Self)
        ensures
            info.name@ == text::c_text(raw.name@),
            info.timezone@ == text::c_text(raw.timezone@),
            info.display_name@ == text::c_text(raw.display_name@),
            info.version_major == raw.version_major,
            info.version_minor == raw.version_minor,
            info.version_patch == raw.version_patch,
            info.revision == raw.revision,
    {
        ServerInfo {
            name: text::c_array_text(raw.name.as_slice()),
            timezone: text::c_array_text(raw.timezone.as_slice()),
            display_name: text::c_array_text(raw.display_name.as_slice()),
            version_major: raw.version_major,
            version_minor: raw.version_minor,
            version_patch: raw.version_patch,
            revision: raw.revision,
        }
    }
}

/// Bytes of a field of an exception, which is empty where it is missing.
pub open spec fn field_bytes(value: Option<Vec<u8>>) -> Seq<u8> {
    match value {
        Some(bytes) => bytes@,
        None => Seq::empty(),
    }
}

/// Error that `exc` describes.
pub open spec fn exception_error(exc: sys::chc_exception) -> error::ErrorView {
    error::ErrorView {
        kind: ErrorKind::Server,
        server_code: exc.code,
        message: text::decoded(field_bytes(exc.display_text)),
        server_name: text::decoded(field_bytes(exc.name)),
    }
}

fn field_slice(value: &Option<Vec<u8>>) -> (bytes: &[u8])
    ensures
        bytes@ == field_bytes(*value),
{
    match value {
        Some(bytes) => bytes.as_slice(),
        None => text::no_bytes(),
    }
}

/// Exception returned by ClickHouse server.
pub struct Exception {
    pub raw: sys::chc_exception,
}

impl Exception {
    /// Takes ownership of an exception record.
    pub fn from_raw(raw: sys::chc_exception) -> (exc: Self)
        ensures
            exc.raw == raw,
    {
        Exception { raw }
    }

    /// Returns ClickHouse error code from `system.errors`.
    pub fn code(&self) -> (code: i32)
        ensures
            code == self.raw.code,
    {
        self.raw.code
    }

    /// Returns exception class name without UTF-8 validation.
    pub fn name(&self) -> (bytes: &[u8])
        ensures
            bytes@ == field_bytes(self.raw.name),
    {
        field_slice(&self.raw.name)
    }

    /// Returns exception message without UTF-8 validation.
    pub fn display_text(&self) -> (bytes: &[u8])
        ensures
            bytes@ == field_bytes(self.raw.display_text),
    {
        field_slice(&self.raw.display_text)
    }

    /// Returns server stack trace without UTF-8 validation.
    ///
    /// Value is empty unless query requested a stack trace.
    pub fn stack_trace(&self) -> (bytes: &[u8])
        ensures
            bytes@ == field_bytes(self.raw.stack_trace),
    {
        field_slice(&self.raw.stack_trace)
    }

    /// Text shown for this exception.
    pub fn display(&self) -> (shown: String)
        ensures
            shown@ == text::decoded(field_bytes(self.raw.name)) + " (code "@
                + text::signed_decimal(self.raw.code as int) + "): "@ + text::decoded(
                field_bytes(self.raw.display_text),
            ),
    {
        let mut shown = text::from_utf8_lossy(self.name());
        shown.append(" (code ");
        shown.append(text::signed_decimal_text(self.raw.code as i64).as_str());
        shown.append("): ");
        shown.append(text::from_utf8_lossy(self.display_text()).as_str());
        shown
    }

    /// Converts exception into an error that carries its code, class and
    /// untruncated message.
    pub fn into_error(self) -> (error: Error)
        ensures
            error@ == exception_error(self.raw),
    {
        Error {
            kind: ErrorKind::Server,
            server_code: self.raw.code,
            message: text::from_utf8_lossy(self.display_text()),
            server_name: text::from_utf8_lossy(self.name()),
        }
    }
}

/// Converts handshake rejection into an error.
///
/// A rejected handshake leaves the error record empty and hands over an
/// exception instead.
pub fn take_handshake_exception(exc: Option<sys::chc_exception>) -> (error: Option<Error>)
    ensures
        error is Some <==> exc is Some,
        error matches Some(e) ==> e@ == exception_error(exc->0),
{
    match exc {
        Some(raw) => Some(Exception::from_raw(raw).into_error()),
        None => None,
    }
}

/// Outcome of a handshake. An exception from the server goes before whatever
/// the result code says.
pub open spec fn handshake_outcome(
    rc: i32,
    err: sys::chc_err,
    exc: Option<sys::chc_exception>,
) -> Result<(), error::ErrorView> {
    match exc {
        Some(raw) => Err(exception_error(raw)),
        None => error::checked(rc, err),
    }
}

/// Turns what a handshake reported into its outcome.
pub fn finish_handshake(
    rc: i32,
    err: &sys::chc_err,
    exc: Option<sys::chc_exception>,
) -> (result: Result<(), Error>)
    ensures
        error::outcome(result) == handshake_outcome(rc, *err, exc),
{
    match take_handshake_exception(exc) {
        Some(e) => Err(e),
        None => error::check(rc, err),
    }
}

/// A rejected handshake is always an error of the server, with the code of the
/// exception, whatever the result code and the error record say.
pub proof fn law_rejection_is_server_error(rc: i32, err: sys::chc_err, exc: sys::chc_exception)
    ensures
        handshake_outcome(rc, err, Some(exc)) matches Err(e) && e.kind == ErrorKind::Server
            && e.server_code == exc.code,
{
}

/// Server packet kind.
///
/// Hello packets are handled during connection and do not have a variant.
#[derive(Debug, Clone, Copy, PartialEq, Eq, Structural)]
pub enum PacketKind {
    Data,
    Exception,
    Progress,
    Pong,
    EndOfStream,
    ProfileInfo,
    Totals,
    Extremes,
    Log,
    TableColumns,
    ProfileEvents,
}

impl PacketKind {
    /// Code of a packet kind.
    pub open spec fn spec_code(self) -> sys::chc_packet_kind {
        match self {
            PacketKind::Data => sys::CHC_PKT_DATA,
            PacketKind::Exception => sys::CHC_PKT_EXCEPTION,
            PacketKind::Progress => sys::CHC_PKT_PROGRESS,
            PacketKind::Pong => sys::CHC_PKT_PONG,
            PacketKind::EndOfStream => sys::CHC_PKT_END_OF_STREAM,
            PacketKind::ProfileInfo => sys::CHC_PKT_PROFILE_INFO,
            PacketKind::Totals => sys::CHC_PKT_TOTALS,
            PacketKind::Extremes => sys::CHC_PKT_EXTREMES,
            PacketKind::Log => sys::CHC_PKT_LOG,
            PacketKind::TableColumns => sys::CHC_PKT_TABLE_COLUMNS,
            PacketKind::ProfileEvents => sys::CHC_PKT_PROFILE_EVENTS,
        }
    }

    /// Packet kind of a code, where there is one.
    pub open spec fn spec_from_raw(k: sys::chc_packet_kind) -> Option<PacketKind> {
        if k == sys::CHC_PKT_DATA {
            Some(PacketKind::Data)
        } else if k == sys::CHC_PKT_EXCEPTION {
            Some(PacketKind::Exception)
        } else if k == sys::CHC_PKT_PROGRESS {
            Some(PacketKind::Progress)
        } else if k == sys::CHC_PKT_PONG {
            Some(PacketKind::Pong)
        } else if k == sys::CHC_PKT_END_OF_STREAM {
            Some(PacketKind::EndOfStream)
        } else if k == sys::CHC_PKT_PROFILE_INFO {
            Some(PacketKind::ProfileInfo)
        } else if k == sys::CHC_PKT_TOTALS {
            Some(PacketKind::Totals)
        } else if k == sys::CHC_PKT_EXTREMES {
            Some(PacketKind::Extremes)
        } else if k == sys::CHC_PKT_LOG {
            Some(PacketKind::Log)
        } else if k == sys::CHC_PKT_TABLE_COLUMNS {
            Some(PacketKind::TableColumns)
        } else if k == sys::CHC_PKT_PROFILE_EVENTS {
            Some(PacketKind::ProfileEvents)
        } else {
            None
        }
    }

    /// Packet kind of code `k`. A code without a kind gives `None`.
    pub fn from_raw(k: sys::chc_packet_kind) -> (kind: Option<Self>)
        ensures
            kind == PacketKind::spec_from_raw(k),
    {
        match k {
            sys::CHC_PKT_DATA => Some(PacketKind::Data),
            sys::CHC_PKT_EXCEPTION => Some(PacketKind::Exception),
            sys::CHC_PKT_PROGRESS => Some(PacketKind::Progress),
            sys::CHC_PKT_PONG => Some(PacketKind::Pong),
            sys::CHC_PKT_END_OF_STREAM => Some(PacketKind::EndOfStream),
            sys::CHC_PKT_PROFILE_INFO => Some(PacketKind::ProfileInfo),
            sys::CHC_PKT_TOTALS => Some(PacketKind::Totals),
            sys::CHC_PKT_EXTREMES => Some(PacketKind::Extremes),
            sys::CHC_PKT_LOG => Some(PacketKind::Log),
            sys::CHC_PKT_TABLE_COLUMNS => Some(PacketKind::TableColumns),
            sys::CHC_PKT_PROFILE_EVENTS => Some(PacketKind::ProfileEvents),
            _ => None,
        }
    }

    /// Code of this packet kind.
    pub fn code(self) -> (code: sys::chc_packet_kind)
        ensures
            code == self.spec_code(),
    {
        match self {
            PacketKind::Data => sys::CHC_PKT_DATA,
            PacketKind::Exception => sys::CHC_PKT_EXCEPTION,
            PacketKind::Progress => sys::CHC_PKT_PROGRESS,
            PacketKind::Pong => sys::CHC_PKT_PONG,
            PacketKind::EndOfStream => sys::CHC_PKT_END_OF_STREAM,
            PacketKind::ProfileInfo => sys::CHC_PKT_PROFILE_INFO,
            PacketKind::Totals => sys::CHC_PKT_TOTALS,
            PacketKind::Extremes => sys::CHC_PKT_EXTREMES,
            PacketKind::Log => sys::CHC_PKT_LOG,
            PacketKind::TableColumns => sys::CHC_PKT_TABLE_COLUMNS,
            PacketKind::ProfileEvents => sys::CHC_PKT_PROFILE_EVENTS,
        }
    }
}

/// A packet kind survives the way to its code and back, and no kind has a code
/// that names none.
pub proof fn law_packet_code_round_trip(k: sys::chc_packet_kind, kind: PacketKind)
    ensures
        PacketKind::spec_from_raw(kind.spec_code()) == Some(kind),
        PacketKind::spec_from_raw(k) == Some(kind) <==> kind.spec_code() == k,
        PacketKind::spec_from_raw(sys::CHC_PKT_HELLO) is None,
{
}

/// Incremental query counters. Each packet contains a delta.
#[derive(Debug, Clone, Copy, PartialEq, Eq, Structural)]
pub struct Progress {
    pub rows: u64,
    pub bytes: u64,
    pub total_rows: u64,
    pub written_rows: u64,
    pub written_bytes: u64,
}

impl Progress {
    /// Counters of a record.
    pub open spec fn spec_from_raw(raw: sys::chc_packet_progress) -> Progress {
        Progress {
            rows: raw.rows,
            bytes: raw.bytes,
            total_rows: raw.total_rows,
            written_rows: raw.written_rows,
            written_bytes: raw.written_bytes,
        }
    }

    /// Reads counters.
    pub fn from_raw(raw: &sys::chc_packet_progress) -> (progress: Self)
        ensures
            progress == Progress::spec_from_raw(*raw),
    {
        Progress {
            rows: raw.rows,
            bytes: raw.bytes,
            total_rows: raw.total_rows,
            written_rows: raw.written_rows,
            written_bytes: raw.written_bytes,
        }
    }
}

/// Query totals reported near completion.
#[derive(Debug, Clone, Copy, PartialEq, Eq, Structural)]
pub struct ProfileInfo {
    pub rows: u64,
    pub blocks: u64,
    pub bytes: u64,
    pub rows_before_limit: u64,
    pub applied_limit: bool,
    pub calculated_rows_before_limit: bool,
}

impl ProfileInfo {
    /// Totals of a record.
    pub open spec fn spec_from_raw(raw: sys::chc_packet_profile) -> ProfileInfo {
        ProfileInfo {
            rows: raw.rows,
            blocks: raw.blocks,
            bytes: raw.bytes,
            rows_before_limit: raw.rows_before_limit,
            applied_limit: raw.applied_limit != 0,
            calculated_rows_before_limit: raw.calculated_rows_before_limit != 0,
        }
    }

    /// Reads totals.
    pub fn from_raw(raw: &sys::chc_packet_profile) -> (info: Self)
        ensures
            info == ProfileInfo::spec_from_raw(*raw),
    {
        ProfileInfo {
            rows: raw.rows,
            blocks: raw.blocks,
            bytes: raw.bytes,
            rows_before_limit: raw.rows_before_limit,
            applied_limit: raw.applied_limit != 0,
            calculated_rows_before_limit: raw.calculated_rows_before_limit != 0,
        }
    }
}

impl PacketKind {
    /// Whether packets of this kind carry a block.
    pub open spec fn has_block(self) -> bool {
        match self {
            PacketKind::Data => true,
            PacketKind::Totals => true,
            PacketKind::Extremes => true,
            PacketKind::Log => true,
            PacketKind::ProfileEvents => true,
            _ => false,
        }
    }
}

impl<'a> sys::chc_packet<'a> {
    /// Whether the payload is the one that the kind calls for, and a block in
    /// it is well formed.
    pub open spec fn wf(&self) -> bool {
        match PacketKind::spec_from_raw(self.kind) {
            Some(kind) => {
                &&& kind.has_block() ==> (self.payload matches sys::chc_packet_payload::block(b)
                    && (b matches Some(block) ==> block.wf()))
                &&& kind == PacketKind::Exception
                    ==> self.payload is exception
                &&& kind == PacketKind::Progress ==> self.payload is progress
                &&& kind == PacketKind::ProfileInfo ==> self.payload is profile
            },
            None => true,
        }
    }

    /// Tests the condition that [`Event::from_raw`] asks of a packet.
    pub fn is_well_formed(&self) -> (ok: bool)
        ensures
            ok == self.wf(),
    {
        match PacketKind::from_raw(self.kind) {
            Some(PacketKind::Data) | Some(PacketKind::Totals) | Some(PacketKind::Extremes) | Some(
                PacketKind::Log,
            ) | Some(PacketKind::ProfileEvents) => match &self.payload {
                sys::chc_packet_payload::block(Some(block)) => block.is_well_formed(),
                sys::chc_packet_payload::block(None) => true,
                _ => false,
            },
            Some(PacketKind::Exception) => match &self.payload {
                sys::chc_packet_payload::exception(_) => true,
                _ => false,
            },
            Some(PacketKind::Progress) => match &self.payload {
                sys::chc_packet_payload::progress(_) => true,
                _ => false,
            },
            Some(PacketKind::ProfileInfo) => match &self.payload {
                sys::chc_packet_payload::profile(_) => true,
                _ => false,
            },
            _ => true,
        }
    }

    /// Packet after its event was taken: a block or an exception is gone from
    /// it, and nothing else has changed.
    pub open spec fn taken(&self) -> sys::chc_packet<'a> {
        match PacketKind::spec_from_raw(self.kind) {
            Some(kind) => if kind.has_block() {
                sys::chc_packet {
                    kind: self.kind,
                    payload: sys::chc_packet_payload::block(None),
                }
            } else if kind == PacketKind::Exception {
                sys::chc_packet {
                    kind: self.kind,
                    payload: sys::chc_packet_payload::exception(None),
                }
            } else {
                *self
            },
            None => *self,
        }
    }
}

/// What an [`Event`] says.
pub enum EventView<'b> {
    Data(sys::chc_block<'b>),
    Totals(sys::chc_block<'b>),
    Extremes(sys::chc_block<'b>),
    Log(sys::chc_block<'b>),
    ProfileEvents(sys::chc_block<'b>),
    Exception(sys::chc_exception),
    Progress(Progress),
    ProfileInfo(ProfileInfo),
    Pong,
    EndOfStream,
    TableColumns,
}

/// Event received from server.
///
/// Event owns any block or exception payload.
pub enum Event<'b> {
    /// Result block or expected INSERT structure.
    Data(Block<'b>),
    /// Row produced by `WITH TOTALS`.
    Totals(Block<'b>),
    /// Minimum and maximum rows produced by `WITH EXTREMES`.
    Extremes(Block<'b>),
    /// Server log rows requested by `send_logs_level`.
    Log(Block<'b>),
    /// Per-query profile event counters.
    ProfileEvents(Block<'b>),
    /// Server exception that ends current query.
    Exception(Exception),
    /// Incremental read and write counters.
    Progress(Progress),
    /// Row and byte totals sent near query completion.
    ProfileInfo(ProfileInfo),
    /// Response to a ping.
    Pong,
    /// Query completion marker.
    EndOfStream,
    /// INSERT target metadata. Payload is not decoded. Following Data block
    /// contains same structure.
    TableColumns,
}

impl<'b> View for Event<'b> {
    type V = EventView<'b>;

    open spec fn view(&self) -> EventView<'b> {
        match *self {
            Event::Data(block) => EventView::Data(block@),
            Event::Totals(block) => EventView::Totals(block@),
            Event::Extremes(block) => EventView::Extremes(block@),
            Event::Log(block) => EventView::Log(block@),
            Event::ProfileEvents(block) => EventView::ProfileEvents(block@),
            Event::Exception(exc) => EventView::Exception(exc.raw),
            Event::Progress(progress) => EventView::Progress(progress),
            Event::ProfileInfo(info) => EventView::ProfileInfo(info),
            Event::Pong => EventView::Pong,
            Event::EndOfStream => EventView::EndOfStream,
            Event::TableColumns => EventView::TableColumns,
        }
    }
}

/// Block of a block packet.
pub open spec fn packet_block<'a>(packet: sys::chc_packet<'a>) -> Result<
    sys::chc_block<'a>,
    error::ErrorView,
> {
    match packet.payload {
        sys::chc_packet_payload::block(Some(block)) => Ok(block),
        _ => Err(error::local_error(ErrorKind::Protocol, "block packet missing block"@)),
    }
}

/// Event of a packet.
pub open spec fn event_of<'a>(packet: sys::chc_packet<'a>) -> Result<
    EventView<'a>,
    error::ErrorView,
> {
    match PacketKind::spec_from_raw(packet.kind) {
        None => Err(
            error::local_error(
                ErrorKind::Protocol,
                "unknown server packet "@ + text::signed_decimal(packet.kind as int),
            ),
        ),
        Some(PacketKind::Data) => match packet_block(packet) {
            Ok(block) => Ok(EventView::Data(block)),
            Err(e) => Err(e),
        },
        Some(PacketKind::Totals) => match packet_block(packet) {
            Ok(block) => Ok(EventView::Totals(block)),
            Err(e) => Err(e),
        },
        Some(PacketKind::Extremes) => match packet_block(packet) {
            Ok(block) => Ok(EventView::Extremes(block)),
            Err(e) => Err(e),
        },
        Some(PacketKind::Log) => match packet_block(packet) {
            Ok(block) => Ok(EventView::Log(block)),
            Err(e) => Err(e),
        },
        Some(PacketKind::ProfileEvents) => match packet_block(packet) {
            Ok(block) => Ok(EventView::ProfileEvents(block)),
            Err(e) => Err(e),
        },
        Some(PacketKind::Exception) => match packet.payload {
            sys::chc_packet_payload::exception(Some(exc)) => Ok(EventView::Exception(exc)),
            _ => Err(
                error::local_error(ErrorKind::Protocol, "exception packet missing exception"@),
            ),
        },
        Some(PacketKind::Progress) => Ok(
            EventView::Progress(Progress::spec_from_raw(packet.payload->progress_0)),
        ),
        Some(PacketKind::ProfileInfo) => Ok(
            EventView::ProfileInfo(ProfileInfo::spec_from_raw(packet.payload->profile_0)),
        ),
        Some(PacketKind::Pong) => Ok(EventView::Pong),
        Some(PacketKind::EndOfStream) => Ok(EventView::EndOfStream),
        Some(PacketKind::TableColumns) => Ok(EventView::TableColumns),
    }
}

/// Outcome that gives an event, taken by its view.
pub open spec fn event_outcome<'b>(result: Result<Event<'b>, Error>) -> Result<
    EventView<'b>,
    error::ErrorView,
> {
    match result {
        Ok(event) => Ok(event@),
        Err(e) => Err(e@),
    }
}

fn take_block<'b>(raw: &mut sys::chc_packet<'b>) -> (result: Result<Block<'b>, Error>)
    requires
        old(raw).payload matches sys::chc_packet_payload::block(b) && (b matches Some(block)
            ==> block.wf()),
    ensures
        match result {
            Ok(block) => packet_block(*old(raw)) == Ok::<_, error::ErrorView>(block@),
            Err(e) => packet_block(*old(raw)) == Err::<sys::chc_block<'b>, error::ErrorView>(e@),
        },
        final(raw).kind == old(raw).kind,
        final(raw).payload == sys::chc_packet_payload::<'b>::block(None),
{
    let taken = match &mut raw.payload {
        sys::chc_packet_payload::block(b) => b.take(),
        _ => None,
    };
    match Block::from_raw(taken) {
        Some(block) => Ok(block),
        None => Err(Error::new(ErrorKind::Protocol, "block packet missing block".to_owned())),
    }
}

fn take_exception(raw: &mut sys::chc_packet<'_>) -> (result: Result<Exception, Error>)
    requires
        old(raw).payload is exception,
    ensures
        match result {
            Ok(exc) => old(raw).payload->exception_0 == Some(exc.raw),
            Err(e) => old(raw).payload->exception_0 is None && e@ == error::local_error(
                ErrorKind::Protocol,
                "exception packet missing exception"@,
            ),
        },
        final(raw).kind == old(raw).kind,
        final(raw).payload == sys::chc_packet_payload::exception(None),
{
    let taken = match &mut raw.payload {
        sys::chc_packet_payload::exception(e) => e.take(),
        _ => None,
    };
    match taken {
        Some(exc) => Ok(Exception::from_raw(exc)),
        None => Err(
            Error::new(ErrorKind::Protocol, "exception packet missing exception".to_owned()),
        ),
    }
}

impl<'b> Event<'b> {
    /// Converts received packet and takes ownership of its payload.
    pub fn from_raw(raw: &mut sys::chc_packet<'b>) -> (result: Result<Self, Error>)
        requires
            old(raw).wf(),
        ensures
            event_outcome(result) == event_of(*old(raw)),
            *final(raw) == old(raw).taken(),
    {
        let kind = match PacketKind::from_raw(raw.kind) {
            Some(kind) => kind,
            None => {
                let mut message = "unknown server packet ".to_owned();
                message.append(text::signed_decimal_text(raw.kind as i64).as_str());
                return Err(Error::new(ErrorKind::Protocol, message));
            },
        };
        match kind {
            PacketKind::Data => match take_block(raw) {
                Ok(block) => Ok(Event::Data(block)),
                Err(e) => Err(e),
            },
            PacketKind::Totals => match take_block(raw) {
                Ok(block) => Ok(Event::Totals(block)),
                Err(e) => Err(e),
            },
            PacketKind::Extremes => match take_block(raw) {
                Ok(block) => Ok(Event::Extremes(block)),
                Err(e) => Err(e),
            },
            PacketKind::Log => match take_block(raw) {
                Ok(block) => Ok(Event::Log(block)),
                Err(e) => Err(e),
            },
            PacketKind::ProfileEvents => match take_block(raw) {
                Ok(block) => Ok(Event::ProfileEvents(block)),
                Err(e) => Err(e),
            },
            PacketKind::Exception => match take_exception(raw) {
                Ok(exc) => Ok(Event::Exception(exc)),
                Err(e) => Err(e),
            },
            PacketKind::Progress => {
                let counters = match &raw.payload {
                    sys::chc_packet_payload::progress(p) => Progress::from_raw(p),
                    _ => vstd::pervasive::unreached(),
                };
                Ok(Event::Progress(counters))
            },
            PacketKind::ProfileInfo => {
                let totals = match &raw.payload {
                    sys::chc_packet_payload::profile(p) => ProfileInfo::from_raw(p),
                    _ => vstd::pervasive::unreached(),
                };
                Ok(Event::ProfileInfo(totals))
            },
            PacketKind::Pong => Ok(Event::Pong),
            PacketKind::EndOfStream => Ok(Event::EndOfStream),
            PacketKind::TableColumns => Ok(Event::TableColumns),
        }
    }
}

/// Turns what a receive reported into its outcome. A failed receive leaves the
/// packet as it is.
pub fn finish_receive<'b>(
    rc: i32,
    err: &sys::chc_err,
    packet: &mut sys::chc_packet<'b>,
) -> (result: Result<Event<'b>, Error>)
    requires
        rc == sys::CHC_OK ==> old(packet).wf(),
    ensures
        event_outcome(result) == receive_outcome(rc, *err, *old(packet)),
        *final(packet) == if rc == sys::CHC_OK {
            old(packet).taken()
        } else {
            *old(packet)
        },
{
    match error::check(rc, err) {
        Ok(()) => Event::from_raw(packet),
        Err(e) => Err(e),
    }
}

/// Outcome of a receive.
pub open spec fn receive_outcome<'a>(
    rc: i32,
    err: sys::chc_err,
    packet: sys::chc_packet<'a>,
) -> Result<EventView<'a>, error::ErrorView> {
    match error::checked(rc, err) {
        Ok(()) => event_of(packet),
        Err(e) => Err(e),
    }
}

/// A payload is handed out once: what is left of a packet after its event was
/// taken gives no block and no exception any more.
pub proof fn law_payload_is_taken_once(packet: sys::chc_packet<'_>)
    requires
        packet.wf(),
    ensures
        packet.taken().wf(),
        packet.taken().taken() == packet.taken(),
        PacketKind::spec_from_raw(packet.kind) matches Some(kind) && (kind.has_block() || kind
            == PacketKind::Exception) ==> event_of(packet.taken()) is Err,
{
}

/// A packet of a known kind gives the event of that kind, except that a
/// missing block or exception is an error of the protocol, as is a packet of
/// an unknown kind.
pub proof fn law_event_fails_only_without_payload(packet: sys::chc_packet<'_>)
    requires
        packet.wf(),
    ensures
        event_of(packet) is Err <==> match PacketKind::spec_from_raw(packet.kind) {
            None => true,
            Some(kind) => {
                ||| kind.has_block() && packet.payload->block_0 is None
                ||| kind == PacketKind::Exception && packet.payload->exception_0 is None
            },
        },
        event_of(packet) matches Err(e) ==> e.kind == ErrorKind::Protocol,
{
}

/// Each code names the packet kind that it is called after, and any other code
/// none.
pub proof fn law_packet_kind_of_each_code(k: sys::chc_packet_kind, found: Option<PacketKind>)
    requires
        call_ensures(PacketKind::from_raw, (k,), found),
    ensures
        found == Some(PacketKind::Data) <==> k == sys::CHC_PKT_DATA,
        found == Some(PacketKind::Exception) <==> k == sys::CHC_PKT_EXCEPTION,
        found == Some(PacketKind::Progress) <==> k == sys::CHC_PKT_PROGRESS,
        found == Some(PacketKind::Pong) <==> k == sys::CHC_PKT_PONG,
        found == Some(PacketKind::EndOfStream) <==> k == sys::CHC_PKT_END_OF_STREAM,
        found == Some(PacketKind::ProfileInfo) <==> k == sys::CHC_PKT_PROFILE_INFO,
        found == Some(PacketKind::Totals) <==> k == sys::CHC_PKT_TOTALS,
        found == Some(PacketKind::Extremes) <==> k == sys::CHC_PKT_EXTREMES,
        found == Some(PacketKind::Log) <==> k == sys::CHC_PKT_LOG,
        found == Some(PacketKind::TableColumns) <==> k == sys::CHC_PKT_TABLE_COLUMNS,
        found == Some(PacketKind::ProfileEvents) <==> k == sys::CHC_PKT_PROFILE_EVENTS,
{
}

/// Each packet kind has the code that is called after it.
pub proof fn law_code_of_each_packet_kind(packet_kind: PacketKind, code: sys::chc_packet_kind)
    requires
        call_ensures(PacketKind::code, (packet_kind,), code),
    ensures
        packet_kind == PacketKind::Data ==> code == sys::CHC_PKT_DATA,
        packet_kind == PacketKind::Exception ==> code == sys::CHC_PKT_EXCEPTION,
        packet_kind == PacketKind::Progress ==> code == sys::CHC_PKT_PROGRESS,
        packet_kind == PacketKind::Pong ==> code == sys::CHC_PKT_PONG,
        packet_kind == PacketKind::EndOfStream ==> code == sys::CHC_PKT_END_OF_STREAM,
        packet_kind == PacketKind::ProfileInfo ==> code == sys::CHC_PKT_PROFILE_INFO,
        packet_kind == PacketKind::Totals ==> code == sys::CHC_PKT_TOTALS,
        packet_kind == PacketKind::Extremes ==> code == sys::CHC_PKT_EXTREMES,
        packet_kind == PacketKind::Log ==> code == sys::CHC_PKT_LOG,
        packet_kind == PacketKind::TableColumns ==> code == sys::CHC_PKT_TABLE_COLUMNS,
        packet_kind == PacketKind::ProfileEvents ==> code == sys::CHC_PKT_PROFILE_EVENTS,
{
}

/// Whether two optional strings are both missing or say the same.
pub open spec fn same_text(a: Option<String>, b: Option<String>) -> bool {
    match (a, b) {
        (Some(s), Some(t)) => s@ == t@,
        (None, None) => true,
        _ => false,
    }
}

/// Whether a text was set, and to `s`.
pub open spec fn says(value: Option<String>, s: Seq<char>) -> bool {
    value matches Some(t) && t@ == s
}

/// Whether two settings agree in everything that is not a text.
pub open spec fn same_numbers(a: ClientOpts, b: ClientOpts) -> bool {
    &&& a.client_version_major == b.client_version_major
    &&& a.client_version_minor == b.client_version_minor
    &&& a.client_version_patch == b.client_version_patch
    &&& a.client_revision == b.client_revision
    &&& a.compression == b.compression
    &&& a.read_buffer_bytes == b.read_buffer_bytes
}

/// Whether two settings agree in their texts.
pub open spec fn same_texts(a: ClientOpts, b: ClientOpts) -> bool {
    &&& same_text(a.client_name, b.client_name)
    &&& same_text(a.database, b.database)
    &&& same_text(a.user, b.user)
    &&& same_text(a.password, b.password)
}

/// New settings leave every text out, report no version, ask for no revision,
/// and do not compress.
pub proof fn law_new_settings_are_defaults(opts: ClientOpts, new: ClientOpts)
    requires
        call_ensures(<ClientOpts as Default>::default, (), opts),
        call_ensures(ClientOpts::new, (), new),
    ensures
        opts.client_name is None && opts.database is None && opts.user is None && opts.password
            is None,
        opts.client_version_major == 0 && opts.client_version_minor == 0
            && opts.client_version_patch == 0,
        opts.client_revision == 0,
        opts.compression == Compression::Uncompressed,
        opts.read_buffer_bytes == 0,
        same_texts(new, opts) && same_numbers(new, opts),
{
    assert(new@ == opts@);
}

/// Each text is set under its own name, and nothing else is changed.
pub proof fn law_each_text_is_set_alone(
    opts: ClientOpts,
    s: &str,
    named: ClientOpts,
    placed: ClientOpts,
    owned: ClientOpts,
    guarded: ClientOpts,
)
    requires
        call_ensures(ClientOpts::client_name, (opts, s), named),
        call_ensures(ClientOpts::database, (opts, s), placed),
        call_ensures(ClientOpts::user, (opts, s), owned),
        call_ensures(ClientOpts::password, (opts, s), guarded),
    ensures
        says(named.client_name, s@) && same_text(named.database, opts.database) && same_text(
            named.user,
            opts.user,
        ) && same_text(named.password, opts.password) && same_numbers(named, opts),
        says(placed.database, s@) && same_text(placed.client_name, opts.client_name) && same_text(
            placed.user,
            opts.user,
        ) && same_text(placed.password, opts.password) && same_numbers(placed, opts),
        says(owned.user, s@) && same_text(owned.client_name, opts.client_name) && same_text(
            owned.database,
            opts.database,
        ) && same_text(owned.password, opts.password) && same_numbers(owned, opts),
        says(guarded.password, s@) && same_text(guarded.client_name, opts.client_name)
            && same_text(guarded.database, opts.database) && same_text(guarded.user, opts.user)
            && same_numbers(guarded, opts),
{
    lemma_same_view(named, opts);
    lemma_same_view(placed, opts);
    lemma_same_view(owned, opts);
    lemma_same_view(guarded, opts);
    assert(optional_text(named.client_name) == named@.client_name);
    assert(optional_text(placed.database) == placed@.database);
    assert(optional_text(owned.user) == owned@.user);
    assert(optional_text(guarded.password) == guarded@.password);
}

/// Settings that look alike agree.
proof fn lemma_same_view(a: ClientOpts, b: ClientOpts)
    ensures
        a@.client_name == b@.client_name ==> same_text(a.client_name, b.client_name),
        a@.database == b@.database ==> same_text(a.database, b.database),
        a@.user == b@.user ==> same_text(a.user, b.user),
        a@.password == b@.password ==> same_text(a.password, b.password),
{
}

/// Version, revision and algorithm are set as given, and nothing else is
/// changed.
pub proof fn law_each_number_is_set_alone(
    opts: ClientOpts,
    major: u64,
    minor: u64,
    patch: u64,
    revision: u64,
    compression: Compression,
    versioned: ClientOpts,
    revised: ClientOpts,
    compressed: ClientOpts,
)
    requires
        call_ensures(ClientOpts::client_version, (opts, major, minor, patch), versioned),
        call_ensures(ClientOpts::client_revision, (opts, revision), revised),
        call_ensures(ClientOpts::compression, (opts, compression), compressed),
    ensures
        same_texts(versioned, opts) && same_texts(revised, opts) && same_texts(compressed, opts),
        versioned.client_version_major == major,
        versioned.client_version_minor == minor,
        versioned.client_version_patch == patch,
        versioned.client_revision == opts.client_revision,
        versioned.compression == opts.compression,
        versioned.read_buffer_bytes == opts.read_buffer_bytes,
        revised.client_revision == revision,
        same_numbers(revised, (ClientOpts { client_revision: revision, ..opts })),
        compressed.compression == compression,
        same_numbers(compressed, (ClientOpts { compression, ..opts })),
{
    lemma_same_view(versioned, opts);
    lemma_same_view(revised, opts);
    lemma_same_view(compressed, opts);
    assert(versioned@.read_buffer_bytes == opts@.read_buffer_bytes);
    assert(revised@.read_buffer_bytes == opts@.read_buffer_bytes);
    assert(compressed@.read_buffer_bytes == opts@.read_buffer_bytes);
}

/// Whether a field holds the text that was set, null-terminated, and is missing
/// where none was set.
pub open spec fn carries(field: Option<Vec<u8>>, value: Option<String>) -> bool {
    match (field, value) {
        (Some(bytes), Some(s)) => bytes@ == vstd::utf8::encode_utf8(s@).push(0),
        (None, None) => true,
        _ => false,
    }
}

/// Whether a record carries every setting that was chosen, and the callback
/// table of the codec.
pub open spec fn carries_settings(
    raw: sys::chc_client_opts,
    opts: ClientOpts,
    codec: Option<&Codec>,
) -> bool {
    &&& carries(raw.client_name, opts.client_name)
    &&& carries(raw.database, opts.database)
    &&& carries(raw.user, opts.user)
    &&& carries(raw.password, opts.password)
    &&& raw.client_version_major == opts.client_version_major
    &&& raw.client_version_minor == opts.client_version_minor
    &&& raw.client_version_patch == opts.client_version_patch
    &&& raw.client_revision == opts.client_revision
    &&& raw.read_buffer_bytes == opts.read_buffer_bytes
    &&& opts.compression == Compression::Uncompressed <==> raw.compression == sys::CHC_COMP_NONE
    &&& opts.compression == Compression::Lz4 <==> raw.compression == sys::CHC_COMP_LZ4
    &&& opts.compression == Compression::Zstd <==> raw.compression == sys::CHC_COMP_ZSTD
    &&& match codec {
        Some(c) => raw.codec == Some(c.raw),
        None => raw.codec is None,
    }
}

/// The record with which a connection starts carries every setting that was
/// chosen: texts, version, revision, algorithm, codec and buffer size.
pub proof fn law_connection_starts_with_chosen_settings(
    opts: ClientOpts,
    codec: Option<&Codec>,
    converted: Result<RawClientOpts, Error>,
    prepared: Result<RawClientOpts, Error>,
)
    requires
        call_ensures(ClientOpts::to_raw, (&opts, codec), converted),
        call_ensures(ClientOpts::prepare, (&opts, codec), prepared),
    ensures
        converted matches Ok(record) ==> carries_settings(record.raw, opts, codec),
        prepared matches Ok(record) ==> carries_settings(record.raw, opts, codec),
{
    if let Ok(record) = converted {
        lemma_carries(opts, codec, record.raw);
    }
    if let Ok(record) = prepared {
        lemma_carries(opts, codec, record.raw);
    }
}

/// A record that looks like the one of the settings carries them.
proof fn lemma_carries(opts: ClientOpts, codec: Option<&Codec>, raw: sys::chc_client_opts)
    requires
        raw_client_opts(opts@, codec_table(codec)) == Ok::<RawClientOptsView, error::ErrorView>(
            raw@,
        ),
    ensures
        carries_settings(raw, opts, codec),
{
    assert(text::optional_bytes(raw.client_name) == raw@.client_name);
    assert(text::optional_bytes(raw.database) == raw@.database);
    assert(text::optional_bytes(raw.user) == raw@.user);
    assert(text::optional_bytes(raw.password) == raw@.password);
}

/// The settings that are handed over are those that were converted.
pub proof fn law_record_is_handed_over(opts: RawClientOpts, raw: &sys::chc_client_opts)
    requires
        call_ensures(RawClientOpts::as_raw, (&opts,), raw),
    ensures
        *raw == opts.raw,
{
}

/// Whether a text may be sent: it is missing, or holds no null byte.
pub open spec fn sendable(value: Option<String>) -> bool {
    value matches Some(s) ==> !vstd::utf8::encode_utf8(s@).contains(0)
}

/// A text is refused only for a null byte.
proof fn lemma_sendable(label: Seq<char>, value: Option<String>)
    ensures
        raw_field(label, optional_text(value)) is Ok <==> sendable(value),
{
    if let Some(s) = value {
        query::law_c_string_refuses_nul(label, s@);
    }
}

/// Settings convert exactly where no text holds a null byte. The error names
/// the first text that does, and where.
pub proof fn law_first_null_byte_in_settings_is_named(
    opts: ClientOpts,
    codec: Option<&Codec>,
    result: Result<RawClientOpts, Error>,
    label: Seq<char>,
    s: String,
    at: int,
)
    requires
        call_ensures(ClientOpts::to_raw, (&opts, codec), result),
    ensures
        result is Ok <==> sendable(opts.client_name) && sendable(opts.database) && sendable(
            opts.user,
        ) && sendable(opts.password),
        ({
            &&& 0 <= at < vstd::utf8::encode_utf8(s@).len()
            &&& vstd::utf8::encode_utf8(s@)[at] == 0
            &&& forall|i: int| 0 <= i < at ==> #[trigger] vstd::utf8::encode_utf8(s@)[i] != 0
            &&& {
                ||| label == "client name"@ && opts.client_name == Some(s)
                ||| label == "database"@ && opts.database == Some(s) && sendable(opts.client_name)
                ||| label == "user"@ && opts.user == Some(s) && sendable(opts.client_name)
                    && sendable(opts.database)
                ||| label == "password"@ && opts.password == Some(s) && sendable(opts.client_name)
                    && sendable(opts.database) && sendable(opts.user)
            }
        }) ==> {
            &&& result matches Err(e)
            &&& e.kind == ErrorKind::Usage
            &&& e.message@ == label + " has an interior NUL at byte "@ + text::decimal(at as nat)
            &&& e.server_code == 0 && e.server_name@.len() == 0
        },
{
    lemma_sendable("client name"@, opts.client_name);
    lemma_sendable("database"@, opts.database);
    lemma_sendable("user"@, opts.user);
    lemma_sendable("password"@, opts.password);
    let bytes = vstd::utf8::encode_utf8(s@);
    if 0 <= at < bytes.len() && bytes[at] == 0 && forall|i: int|
        0 <= i < at ==> #[trigger] bytes[i] != 0 {
        text::lemma_first_nul_is(bytes, at as nat);
    }
}

/// A codec is missed exactly where an algorithm is selected for which it lacks
/// a callback. The error names the algorithm.
pub proof fn law_missing_codec_is_named(
    opts: ClientOpts,
    codec: Option<&Codec>,
    result: Result<(), Error>,
    name: &'static str,
)
    requires
        call_ensures(ClientOpts::validate_codec, (&opts, codec), result),
        call_ensures(Compression::name, (opts.compression,), name),
    ensures
        opts.compression == Compression::Uncompressed ==> result is Ok,
        opts.compression == Compression::Lz4 ==> (result is Ok <==> (codec matches Some(c)
            && c.raw.lz4_compress && c.raw.lz4_decompress && c.raw.lz4_bound)),
        opts.compression == Compression::Zstd ==> (result is Ok <==> (codec matches Some(c)
            && c.raw.zstd_compress && c.raw.zstd_decompress && c.raw.zstd_bound)),
        result matches Err(e) ==> {
            &&& e.kind == ErrorKind::Usage
            &&& codec is None ==> e.message@ == name@ + " compression requires a codec"@
            &&& codec is Some ==> e.message@ == "codec does not support "@ + name@
                + " compression"@
            &&& e.server_code == 0 && e.server_name@.len() == 0
        },
{
}

/// A connection starts where the codec serves the algorithm and the settings
/// convert. Otherwise the error is that of the codec, and that of the settings
/// only behind it.
pub proof fn law_codec_is_checked_before_settings(
    opts: ClientOpts,
    codec: Option<&Codec>,
    checked: Result<(), Error>,
    converted: Result<RawClientOpts, Error>,
    result: Result<RawClientOpts, Error>,
)
    requires
        call_ensures(ClientOpts::validate_codec, (&opts, codec), checked),
        call_ensures(ClientOpts::to_raw, (&opts, codec), converted),
        call_ensures(ClientOpts::prepare, (&opts, codec), result),
    ensures
        result is Ok <==> checked is Ok && converted is Ok,
        checked matches Err(first) ==> (result matches Err(e) && e.kind == first.kind && e.message@
            == first.message@),
        checked is Ok ==> (converted matches Err(second) ==> (result matches Err(e) && e.kind
            == second.kind && e.message@ == second.message@)),
{
}

/// Server information says what the record says.
pub proof fn law_server_information_is_kept(raw: sys::chc_server_info, info: ServerInfo)
    requires
        call_ensures(ServerInfo::from_raw, (&raw,), info),
    ensures
        info.name@ == text::c_text(raw.name@),
        info.timezone@ == text::c_text(raw.timezone@),
        info.display_name@ == text::c_text(raw.display_name@),
        info.version_major == raw.version_major,
        info.version_minor == raw.version_minor,
        info.version_patch == raw.version_patch,
        info.revision == raw.revision,
{
}

/// Whether `bytes` are those of a field, and none where it is missing.
pub open spec fn field_is(value: Option<Vec<u8>>, bytes: Seq<u8>) -> bool {
    match value {
        Some(v) => bytes == v@,
        None => bytes.len() == 0,
    }
}

/// An exception hands out what the server sent: its code, its class, its
/// message and its stack trace.
pub proof fn law_exception_hands_out_its_fields(
    raw: sys::chc_exception,
    exc: Exception,
    code: i32,
    name: &[u8],
    message: &[u8],
    trace: &[u8],
)
    requires
        call_ensures(Exception::from_raw, (raw,), exc),
        call_ensures(Exception::code, (&exc,), code),
        call_ensures(Exception::name, (&exc,), name),
        call_ensures(Exception::display_text, (&exc,), message),
        call_ensures(Exception::stack_trace, (&exc,), trace),
    ensures
        exc.raw == raw,
        code == raw.code,
        field_is(raw.name, name@),
        field_is(raw.display_text, message@),
        field_is(raw.stack_trace, trace@),
{
}

/// Whether an error is the one that an exception describes: an error of the
/// server, with its code, its class and its whole message.
pub open spec fn describes(exc: sys::chc_exception, e: Error) -> bool {
    &&& e.kind == ErrorKind::Server
    &&& e.server_code == exc.code
    &&& exists|bytes: Seq<u8>|
        #[trigger] field_is(exc.display_text, bytes) && text::shows(bytes, e.message@)
    &&& exists|bytes: Seq<u8>|
        #[trigger] field_is(exc.name, bytes) && text::shows(bytes, e.server_name@)
}

/// The error of an exception is the one that it describes.
pub proof fn lemma_describes(exc: sys::chc_exception, e: Error)
    requires
        e@ == exception_error(exc),
    ensures
        describes(exc, e),
{
    let message = field_bytes(exc.display_text);
    let name = field_bytes(exc.name);
    assert(field_is(exc.display_text, message) && text::shows(message, e@.message));
    assert(field_is(exc.name, name) && text::shows(name, e@.server_name));
}

/// An exception becomes an error of the server with its code, its class and its
/// whole message, and is shown with all three.
pub proof fn law_exception_becomes_server_error(
    exc: Exception,
    error: Error,
    shown: String,
    code: String,
)
    requires
        call_ensures(Exception::into_error, (exc,), error),
        call_ensures(Exception::display, (&exc,), shown),
        call_ensures(text::signed_decimal_text, (exc.raw.code as i64,), code),
    ensures
        describes(exc.raw, error),
        shown@ == error.server_name@ + " (code "@ + code@ + "): "@ + error.message@,
{
    lemma_describes(exc.raw, error);
}

/// A handshake is accepted exactly where the server sent no exception and the
/// result code is that of success. An exception is reported as the error that
/// it describes, and otherwise the code and the record are.
pub proof fn law_handshake_succeeds_only_unrejected(
    rc: i32,
    err: sys::chc_err,
    exc: Option<sys::chc_exception>,
    result: Result<(), Error>,
    taken: Option<Error>,
    failure: Error,
)
    requires
        call_ensures(finish_handshake, (rc, &err, exc), result),
        call_ensures(take_handshake_exception, (exc,), taken),
        call_ensures(Error::from_raw, (rc, &err), failure),
    ensures
        result is Ok <==> exc is None && rc == sys::CHC_OK,
        taken is Some <==> exc is Some,
        exc matches Some(raw) ==> (result matches Err(e) && describes(raw, e)),
        exc matches Some(raw) ==> (taken matches Some(e) && describes(raw, e)),
        exc is None && rc != sys::CHC_OK ==> (result matches Err(e) && e.kind == failure.kind
            && e.message@ == failure.message@ && e.server_code == failure.server_code
            && e.server_name@ == failure.server_name@ && e.kind.spec_code() == rc),
{
    if let Some(raw) = exc {
        lemma_describes(raw, result->Err_0);
        lemma_describes(raw, taken->0);
    }
}

/// Counters are those of the record, each under its own name.
pub proof fn law_counters_are_kept(
    raw: sys::chc_packet_progress,
    progress: Progress,
    totals: sys::chc_packet_profile,
    info: ProfileInfo,
)
    requires
        call_ensures(Progress::from_raw, (&raw,), progress),
        call_ensures(ProfileInfo::from_raw, (&totals,), info),
    ensures
        counts(raw, progress),
        sums(totals, info),
{
}

/// Whether `progress` holds the counters of `raw`.
pub open spec fn counts(raw: sys::chc_packet_progress, progress: Progress) -> bool {
    &&& progress.rows == raw.rows
    &&& progress.bytes == raw.bytes
    &&& progress.total_rows == raw.total_rows
    &&& progress.written_rows == raw.written_rows
    &&& progress.written_bytes == raw.written_bytes
}

/// Whether `info` holds the totals of `raw`. A flag is set where its byte is
/// not zero.
pub open spec fn sums(raw: sys::chc_packet_profile, info: ProfileInfo) -> bool {
    &&& info.rows == raw.rows
    &&& info.blocks == raw.blocks
    &&& info.bytes == raw.bytes
    &&& info.rows_before_limit == raw.rows_before_limit
    &&& info.applied_limit <==> raw.applied_limit != 0
    &&& info.calculated_rows_before_limit <==> raw.calculated_rows_before_limit != 0
}

/// Whether a packet calls for a block.
pub open spec fn calls_for_block(kind: sys::chc_packet_kind) -> bool {
    ||| kind == sys::CHC_PKT_DATA
    ||| kind == sys::CHC_PKT_TOTALS
    ||| kind == sys::CHC_PKT_EXTREMES
    ||| kind == sys::CHC_PKT_LOG
    ||| kind == sys::CHC_PKT_PROFILE_EVENTS
}

/// Whether a packet has a kind that a server sends to a running query.
pub open spec fn is_known(kind: sys::chc_packet_kind) -> bool {
    ||| calls_for_block(kind)
    ||| kind == sys::CHC_PKT_EXCEPTION
    ||| kind == sys::CHC_PKT_PROGRESS
    ||| kind == sys::CHC_PKT_PONG
    ||| kind == sys::CHC_PKT_END_OF_STREAM
    ||| kind == sys::CHC_PKT_PROFILE_INFO
    ||| kind == sys::CHC_PKT_TABLE_COLUMNS
}

/// Whether `event` is what `packet` says: an event of the kind of the packet,
/// with its payload.
pub open spec fn tells<'b>(packet: sys::chc_packet<'b>, event: Event<'b>) -> bool {
    match event {
        Event::Data(block) => packet.kind == sys::CHC_PKT_DATA && packet.payload
            == sys::chc_packet_payload::block(Some(block@)),
        Event::Totals(block) => packet.kind == sys::CHC_PKT_TOTALS && packet.payload
            == sys::chc_packet_payload::block(Some(block@)),
        Event::Extremes(block) => packet.kind == sys::CHC_PKT_EXTREMES && packet.payload
            == sys::chc_packet_payload::block(Some(block@)),
        Event::Log(block) => packet.kind == sys::CHC_PKT_LOG && packet.payload
            == sys::chc_packet_payload::block(Some(block@)),
        Event::ProfileEvents(block) => packet.kind == sys::CHC_PKT_PROFILE_EVENTS && packet.payload
            == sys::chc_packet_payload::block(Some(block@)),
        Event::Exception(exc) => packet.kind == sys::CHC_PKT_EXCEPTION && packet.payload
            == sys::chc_packet_payload::<'b>::exception(Some(exc.raw)),
        Event::Progress(progress) => packet.kind == sys::CHC_PKT_PROGRESS && counts(
            packet.payload->progress_0,
            progress,
        ),
        Event::ProfileInfo(info) => packet.kind == sys::CHC_PKT_PROFILE_INFO && sums(
            packet.payload->profile_0,
            info,
        ),
        Event::Pong => packet.kind == sys::CHC_PKT_PONG,
        Event::EndOfStream => packet.kind == sys::CHC_PKT_END_OF_STREAM,
        Event::TableColumns => packet.kind == sys::CHC_PKT_TABLE_COLUMNS,
    }
}

/// Whether `e` is the error of a packet that says nothing: its kind is unknown,
/// or the block or exception that it calls for is missing.
pub open spec fn says_nothing<'b>(packet: sys::chc_packet<'b>, e: Error) -> bool {
    &&& e.kind == ErrorKind::Protocol
    &&& e.server_code == 0 && e.server_name@.len() == 0
    &&& {
        ||| !is_known(packet.kind) && e.message@ == "unknown server packet "@
            + text::signed_decimal(packet.kind as int)
        ||| calls_for_block(packet.kind) && !(packet.payload matches sys::chc_packet_payload::block(
            Some(_),
        )) && e.message@ == "block packet missing block"@
        ||| packet.kind == sys::CHC_PKT_EXCEPTION
            && !(packet.payload matches sys::chc_packet_payload::exception(Some(_))) && e.message@
            == "exception packet missing exception"@
    }
}

/// Whether `after` is `before` without the block or the exception that was
/// taken out of it, and otherwise unchanged.
pub open spec fn is_emptied<'b>(before: sys::chc_packet<'b>, after: sys::chc_packet<'b>) -> bool {
    &&& after.kind == before.kind
    &&& calls_for_block(before.kind) ==> after.payload == sys::chc_packet_payload::<'b>::block(None)
    &&& before.kind == sys::CHC_PKT_EXCEPTION ==> after.payload
        == sys::chc_packet_payload::<'b>::exception(None)
    &&& !calls_for_block(before.kind) && before.kind != sys::CHC_PKT_EXCEPTION ==> after == before
}

/// The event of a packet is what the packet says, and the payload is gone from
/// the packet. There is an error only where the packet says nothing.
pub proof fn law_event_says_what_the_packet_says<'b>(
    packet: &mut sys::chc_packet<'b>,
    result: Result<Event<'b>, Error>,
)
    requires
        call_ensures(Event::from_raw, (packet,), result),
    ensures
        match result {
            Ok(event) => tells(*old(packet), event),
            Err(e) => says_nothing(*old(packet), e),
        },
        is_emptied(*old(packet), *final(packet)),
{
}

/// A receive gives an event only where its result code is that of success, and
/// then the event that the packet says: the end of the stream is told only by a
/// packet of that kind. Any other code is an error of the category of that
/// code, and leaves the packet as it is.
pub proof fn law_receive_gives_events_only_on_success<'b>(
    rc: i32,
    err: sys::chc_err,
    packet: &mut sys::chc_packet<'b>,
    result: Result<Event<'b>, Error>,
    failure: Error,
)
    requires
        call_ensures(finish_receive, (rc, &err, packet), result),
        call_ensures(Error::from_raw, (rc, &err), failure),
    ensures
        rc != sys::CHC_OK ==> {
            &&& result matches Err(e)
            &&& e.kind == failure.kind && e.kind.spec_code() == rc
            &&& e.message@ == failure.message@
            &&& e.server_code == failure.server_code && e.server_name@ == failure.server_name@
            &&& *final(packet) == *old(packet)
        },
        rc == sys::CHC_OK ==> match result {
            Ok(event) => tells(*old(packet), event),
            Err(e) => says_nothing(*old(packet), e),
        } && is_emptied(*old(packet), *final(packet)),
        result matches Ok(Event::EndOfStream) ==> rc == sys::CHC_OK && old(packet).kind
            == sys::CHC_PKT_END_OF_STREAM,
{
}

/// A packet is well formed where it has the payload that its kind calls for and
/// a block in it is well formed, and only there.
pub proof fn law_packet_is_well_formed_by_its_payload(packet: sys::chc_packet<'_>, ok: bool)
    requires
        call_ensures(sys::chc_packet::is_well_formed, (&packet,), ok),
    ensures
        ok <==> match packet.payload {
            sys::chc_packet_payload::block(Some(block)) => packet.kind != sys::CHC_PKT_EXCEPTION
                && packet.kind != sys::CHC_PKT_PROGRESS && packet.kind != sys::CHC_PKT_PROFILE_INFO
                && (calls_for_block(packet.kind) ==> block.wf()),
            sys::chc_packet_payload::block(None) => packet.kind != sys::CHC_PKT_EXCEPTION
                && packet.kind != sys::CHC_PKT_PROGRESS && packet.kind
                != sys::CHC_PKT_PROFILE_INFO,
            sys::chc_packet_payload::exception(_) => !calls_for_block(packet.kind) && packet.kind
                != sys::CHC_PKT_PROGRESS && packet.kind != sys::CHC_PKT_PROFILE_INFO,
            sys::chc_packet_payload::progress(_) => !calls_for_block(packet.kind) && packet.kind
                != sys::CHC_PKT_EXCEPTION && packet.kind != sys::CHC_PKT_PROFILE_INFO,
            sys::chc_packet_payload::profile(_) => !calls_for_block(packet.kind) && packet.kind
                != sys::CHC_PKT_EXCEPTION && packet.kind != sys::CHC_PKT_PROGRESS,
        },
{
}

} // verus!
