//! Errors returned by this crate.

use vstd::prelude::*;
use vstd::string::*;

use crate::sys;
use crate::text;

verus! {

/// `std::io::Error`, carried through without a look inside.
#[verifier::external_type_specification]
#[verifier::external_body]
pub struct ExIoError(std::io::Error);

/// Category of a result code.
#[derive(Debug, Clone, Copy, PartialEq, Eq, Structural)]
pub enum ErrorKind {
    /// Transport operation failed or read deadline expired.
    Io,
    /// Stream ended before required data was available.
    Eof,
    /// Protocol data was invalid or unsupported.
    Protocol,
    /// Type name was invalid or column did not match its declared type.
    Type,
    /// Allocator returned a null pointer.
    Oom,
    /// [`CancelToken`](crate::io::CancelToken) was set before a read.
    Cancelled,
    /// Server returned an exception. See [`Error::server_code`] and
    /// [`Error::server_name`] for details.
    Server,
    /// API input was invalid.
    Usage,
    /// I/O-independent client requires more input. Blocking client does not
    /// return this category.
    WouldBlock,
    /// Error code is not represented by another variant.
    Other(i32),
}

impl ErrorKind {
    /// Result code of a category.
    pub open spec fn spec_code(self) -> i32 {
        match self {
            ErrorKind::Io => sys::CHC_ERR_IO,
            ErrorKind::Eof => sys::CHC_ERR_EOF,
            ErrorKind::Protocol => sys::CHC_ERR_PROTOCOL,
            ErrorKind::Type => sys::CHC_ERR_TYPE,
            ErrorKind::Oom => sys::CHC_ERR_OOM,
            ErrorKind::Cancelled => sys::CHC_ERR_CANCELLED,
            ErrorKind::Server => sys::CHC_ERR_SERVER,
            ErrorKind::Usage => sys::CHC_ERR_USAGE,
            ErrorKind::WouldBlock => sys::CHC_WOULD_BLOCK,
            ErrorKind::Other(code) => code,
        }
    }

    /// Category of a result code. A code without a category of its own is
    /// kept in [`ErrorKind::Other`].
    pub open spec fn spec_from_code(code: i32) -> ErrorKind {
        if code == sys::CHC_ERR_IO {
            ErrorKind::Io
        } else if code == sys::CHC_ERR_EOF {
            ErrorKind::Eof
        } else if code == sys::CHC_ERR_PROTOCOL {
            ErrorKind::Protocol
        } else if code == sys::CHC_ERR_TYPE {
            ErrorKind::Type
        } else if code == sys::CHC_ERR_OOM {
            ErrorKind::Oom
        } else if code == sys::CHC_ERR_CANCELLED {
            ErrorKind::Cancelled
        } else if code == sys::CHC_ERR_SERVER {
            ErrorKind::Server
        } else if code == sys::CHC_ERR_USAGE {
            ErrorKind::Usage
        } else if code == sys::CHC_WOULD_BLOCK {
            ErrorKind::WouldBlock
        } else {
            ErrorKind::Other(code)
        }
    }

    /// Name of the variant, as `Debug` writes it.
    pub open spec fn spec_name(self) -> Seq<char> {
        match self {
            ErrorKind::Io => "Io"@,
            ErrorKind::Eof => "Eof"@,
            ErrorKind::Protocol => "Protocol"@,
            ErrorKind::Type => "Type"@,
            ErrorKind::Oom => "Oom"@,
            ErrorKind::Cancelled => "Cancelled"@,
            ErrorKind::Server => "Server"@,
            ErrorKind::Usage => "Usage"@,
            ErrorKind::WouldBlock => "WouldBlock"@,
            ErrorKind::Other(code) => "Other("@ + text::signed_decimal(code as int) + ")"@,
        }
    }

    /// Category of `code`.
    pub fn from_code(code: i32) -> (kind: Self)
        ensures
            kind == ErrorKind::spec_from_code(code),
    {
        match code {
            sys::CHC_ERR_IO => ErrorKind::Io,
            sys::CHC_ERR_EOF => ErrorKind::Eof,
            sys::CHC_ERR_PROTOCOL => ErrorKind::Protocol,
            sys::CHC_ERR_TYPE => ErrorKind::Type,
            sys::CHC_ERR_OOM => ErrorKind::Oom,
            sys::CHC_ERR_CANCELLED => ErrorKind::Cancelled,
            sys::CHC_ERR_SERVER => ErrorKind::Server,
            sys::CHC_ERR_USAGE => ErrorKind::Usage,
            sys::CHC_WOULD_BLOCK => ErrorKind::WouldBlock,
            other => ErrorKind::Other(other),
        }
    }

    /// Result code of this category.
    pub fn code(self) -> (code: i32)
        ensures
            code == self.spec_code(),
    {
        match self {
            ErrorKind::Io => sys::CHC_ERR_IO,
            ErrorKind::Eof => sys::CHC_ERR_EOF,
            ErrorKind::Protocol => sys::CHC_ERR_PROTOCOL,
            ErrorKind::Type => sys::CHC_ERR_TYPE,
            ErrorKind::Oom => sys::CHC_ERR_OOM,
            ErrorKind::Cancelled => sys::CHC_ERR_CANCELLED,
            ErrorKind::Server => sys::CHC_ERR_SERVER,
            ErrorKind::Usage => sys::CHC_ERR_USAGE,
            ErrorKind::WouldBlock => sys::CHC_WOULD_BLOCK,
            ErrorKind::Other(code) => code,
        }
    }

    /// Name of the variant, as `Debug` writes it.
    pub fn name(self) -> (name: String)
        ensures
            name@ == self.spec_name(),
    {
        match self {
            ErrorKind::Io => "Io".to_owned(),
            ErrorKind::Eof => "Eof".to_owned(),
            ErrorKind::Protocol => "Protocol".to_owned(),
            ErrorKind::Type => "Type".to_owned(),
            ErrorKind::Oom => "Oom".to_owned(),
            ErrorKind::Cancelled => "Cancelled".to_owned(),
            ErrorKind::Server => "Server".to_owned(),
            ErrorKind::Usage => "Usage".to_owned(),
            ErrorKind::WouldBlock => "WouldBlock".to_owned(),
            ErrorKind::Other(code) => {
                let mut name = "Other(".to_owned();
                name.append(text::signed_decimal_text(code as i64).as_str());
                name.append(")");
                name
            },
        }
    }
}

/// A named category survives the way to its result code and back.
pub proof fn law_kind_code_round_trip(kind: ErrorKind)
    requires
        !(kind is Other),
    ensures
        ErrorKind::spec_from_code(kind.spec_code()) == kind,
{
}

/// A result code survives the way to its category and back.
pub proof fn law_code_kind_round_trip(code: i32)
    ensures
        ErrorKind::spec_from_code(code).spec_code() == code,
{
}

/// What an [`Error`] says.
#[verifier::ext_equal]
pub struct ErrorView {
    pub kind: ErrorKind,
    pub server_code: i32,
    pub message: Seq<char>,
    pub server_name: Seq<char>,
}

/// Error that no server sent.
pub open spec fn local_error(kind: ErrorKind, message: Seq<char>) -> ErrorView {
    ErrorView { kind, server_code: 0, message, server_name: Seq::empty() }
}

/// Error for invalid API input.
pub open spec fn usage_error(message: Seq<char>) -> ErrorView {
    local_error(ErrorKind::Usage, message)
}

/// Error that result code `code` and error record `err` describe. Only an
/// error of the server has a code and a name of the server.
pub open spec fn raw_error(code: i32, err: sys::chc_err) -> ErrorView {
    let kind = ErrorKind::spec_from_code(code);
    ErrorView {
        kind,
        server_code: if kind == ErrorKind::Server {
            err.server_code
        } else {
            0
        },
        message: text::c_text(err.msg@),
        server_name: if kind == ErrorKind::Server {
            text::c_text(err.server_name@)
        } else {
            Seq::empty()
        },
    }
}

/// Outcome of an operation, with its error taken by its view.
pub open spec fn outcome<T>(result: Result<T, Error>) -> Result<T, ErrorView> {
    match result {
        Ok(value) => Ok(value),
        Err(error) => Err(error@),
    }
}

/// Outcome that result code `rc` and error record `err` describe.
pub open spec fn checked(rc: i32, err: sys::chc_err) -> Result<(), ErrorView> {
    if rc == sys::CHC_OK {
        Ok(())
    } else {
        Err(raw_error(rc, err))
    }
}

/// Error returned by this crate.
#[derive(Debug, Clone)]
pub struct Error {
    pub kind: ErrorKind,
    /// ClickHouse error code, or zero when `kind` is not [`ErrorKind::Server`].
    pub server_code: i32,
    /// Error message.
    pub message: String,
    /// Server exception name, empty when `kind` is not [`ErrorKind::Server`].
    pub server_name: String,
}

impl View for Error {
    type V = ErrorView;

    open spec fn view(&self) -> ErrorView {
        ErrorView {
            kind: self.kind,
            server_code: self.server_code,
            message: self.message@,
            server_name: self.server_name@,
        }
    }
}

impl Error {
    /// Creates an error that no server sent.
    pub fn new(kind: ErrorKind, message: String) -> (error: Self)
        ensures
            error@ == local_error(kind, message@),
    {
        Error { kind, server_code: 0, message, server_name: String::new() }
    }

    /// Creates an error for invalid API input.
    pub fn usage(message: String) -> (error: Self)
        ensures
            error@ == usage_error(message@),
    {
        Error::new(ErrorKind::Usage, message)
    }

    /// Reads the error that a failing operation reported.
    pub fn from_raw(code: i32, err: &sys::chc_err) -> (error: Self)
        ensures
            error@ == raw_error(code, *err),
    {
        let kind = ErrorKind::from_code(code);
        let message = text::c_array_text(err.msg.as_slice());
        if kind == ErrorKind::Server {
            Error {
                kind,
                server_code: err.server_code,
                message,
                server_name: text::c_array_text(err.server_name.as_slice()),
            }
        } else {
            // Record may hold stale server fields
            Error::new(kind, message)
        }
    }

    /// Converts an error of the standard library. The text that it displays
    /// becomes the message.
    pub fn from_io(e: std::io::Error) -> (error: Self)
        ensures
            error@ == local_error(ErrorKind::Io, error.message@),
            to_string_from_display_ensures::<std::io::Error>(&e, error.message),
    {
        Error {
            kind: ErrorKind::Io,
            server_code: 0,
            message: e.to_string(),
            server_name: String::new(),
        }
    }

    /// Text shown for this error.
    pub open spec fn spec_display(self) -> Seq<char> {
        "clickhouse-c: "@ + self.kind.spec_name() + ": "@ + self.message@
    }

    /// Text shown for this error.
    pub fn display(&self) -> (shown: String)
        ensures
            shown@ == self.spec_display(),
    {
        let mut shown = "clickhouse-c: ".to_owned();
        shown.append(self.kind.name().as_str());
        shown.append(": ");
        shown.append(self.message.as_str());
        shown
    }
}

/// Turns a result code into an outcome. A success ignores `err`, which may
/// hold stale text.
pub fn check(rc: i32, err: &sys::chc_err) -> (result: Result<(), Error>)
    ensures
        outcome(result) == checked(rc, *err),
{
    if rc == sys::CHC_OK {
        Ok(())
    } else {
        Err(Error::from_raw(rc, err))
    }
}

/// A success does not depend on what an error record holds.
pub proof fn law_success_ignores_stale_error(err: sys::chc_err, other: sys::chc_err)
    ensures
        checked(sys::CHC_OK, err) == checked(sys::CHC_OK, other),
        checked(sys::CHC_OK, err) is Ok,
{
}

/// An error that is not one of the server has no code and no name of the
/// server, whatever its record holds.
pub proof fn law_server_fields_only_from_server(rc: i32, err: sys::chc_err)
    ensures
        checked(rc, err) matches Err(e) ==> e.kind != ErrorKind::Server ==> e.server_code == 0
            && e.server_name.len() == 0,
        rc == sys::CHC_ERR_SERVER ==> (checked(rc, err) matches Err(e) && e.server_code
            == err.server_code && e.server_name == text::c_text(err.server_name@)),
{
}

/// Every other result code is an error of the category of that code.
pub proof fn law_failure_keeps_code(rc: i32, err: sys::chc_err)
    requires
        rc != sys::CHC_OK,
    ensures
        checked(rc, err) matches Err(e) && e.kind.spec_code() == rc,
{
}

/// A text without null bytes that a failing operation stored in its record is
/// the message of the error.
pub proof fn law_message_reads_back(rc: i32, err: sys::chc_err, s: Seq<char>, rest: Seq<u8>)
    requires
        rc != sys::CHC_OK,
        err.msg@ == vstd::utf8::encode_utf8(s).push(0) + rest,
        !vstd::utf8::encode_utf8(s).contains(0),
    ensures
        checked(rc, err) matches Err(e) && e.message == s,
{
    let stored = vstd::utf8::encode_utf8(s);
    assert forall|i: int| 0 <= i < stored.len() implies #[trigger] err.msg@[i] != 0 by {
        assert(err.msg@[i] == stored[i]);
        assert(stored.contains(stored[i]));
    }
    assert(err.msg@[stored.len() as int] == 0);
    text::lemma_first_nul_is(err.msg@, stored.len());
    assert(err.msg@.take(stored.len() as int) =~= stored);
    text::law_encoded_text_is_decoded(s);
}

/// Each result code names the category that it is called after. A code without
/// a category of its own is kept.
pub proof fn law_category_of_each_code(code: i32, kind: ErrorKind)
    requires
        call_ensures(ErrorKind::from_code, (code,), kind),
    ensures
        kind == ErrorKind::Io <==> code == sys::CHC_ERR_IO,
        kind == ErrorKind::Eof <==> code == sys::CHC_ERR_EOF,
        kind == ErrorKind::Protocol <==> code == sys::CHC_ERR_PROTOCOL,
        kind == ErrorKind::Type <==> code == sys::CHC_ERR_TYPE,
        kind == ErrorKind::Oom <==> code == sys::CHC_ERR_OOM,
        kind == ErrorKind::Cancelled <==> code == sys::CHC_ERR_CANCELLED,
        kind == ErrorKind::Server <==> code == sys::CHC_ERR_SERVER,
        kind == ErrorKind::Usage <==> code == sys::CHC_ERR_USAGE,
        kind == ErrorKind::WouldBlock <==> code == sys::CHC_WOULD_BLOCK,
        kind matches ErrorKind::Other(kept) ==> kept == code,
        code == sys::CHC_OK ==> kind == ErrorKind::Other(code),
{
}

/// Each category has the result code that is called after it, and a code that
/// was kept is handed back.
pub proof fn law_code_of_each_category(kind: ErrorKind, code: i32)
    requires
        call_ensures(ErrorKind::code, (kind,), code),
    ensures
        kind == ErrorKind::Io ==> code == sys::CHC_ERR_IO,
        kind == ErrorKind::Eof ==> code == sys::CHC_ERR_EOF,
        kind == ErrorKind::Protocol ==> code == sys::CHC_ERR_PROTOCOL,
        kind == ErrorKind::Type ==> code == sys::CHC_ERR_TYPE,
        kind == ErrorKind::Oom ==> code == sys::CHC_ERR_OOM,
        kind == ErrorKind::Cancelled ==> code == sys::CHC_ERR_CANCELLED,
        kind == ErrorKind::Server ==> code == sys::CHC_ERR_SERVER,
        kind == ErrorKind::Usage ==> code == sys::CHC_ERR_USAGE,
        kind == ErrorKind::WouldBlock ==> code == sys::CHC_WOULD_BLOCK,
        kind matches ErrorKind::Other(kept) ==> code == kept,
        code == sys::CHC_OK ==> kind is Other,
{
}

/// Each category is shown under its own name, and a code that was kept behind
/// the name, as a decimal number in brackets.
pub proof fn law_name_of_each_category(kind: ErrorKind, name: String)
    requires
        call_ensures(ErrorKind::name, (kind,), name),
    ensures
        kind == ErrorKind::Io ==> name@ == "Io"@,
        kind == ErrorKind::Eof ==> name@ == "Eof"@,
        kind == ErrorKind::Protocol ==> name@ == "Protocol"@,
        kind == ErrorKind::Type ==> name@ == "Type"@,
        kind == ErrorKind::Oom ==> name@ == "Oom"@,
        kind == ErrorKind::Cancelled ==> name@ == "Cancelled"@,
        kind == ErrorKind::Server ==> name@ == "Server"@,
        kind == ErrorKind::Usage ==> name@ == "Usage"@,
        kind == ErrorKind::WouldBlock ==> name@ == "WouldBlock"@,
        kind matches ErrorKind::Other(code) ==> name@ == "Other("@ + text::signed_decimal(
            code as int,
        ) + ")"@,
{
}

/// A new error has the category and the message that were given, and nothing
/// of a server.
pub proof fn law_new_error_has_no_server_fields(
    kind: ErrorKind,
    message: String,
    error: Error,
    misuse: Error,
)
    requires
        call_ensures(Error::new, (kind, message), error),
        call_ensures(Error::usage, (message,), misuse),
    ensures
        error.kind == kind,
        misuse.kind == ErrorKind::Usage,
        error.message@ == message@,
        misuse.message@ == message@,
        error.server_code == 0 && error.server_name@.len() == 0,
        misuse.server_code == 0 && misuse.server_name@.len() == 0,
{
}

/// The text shown for an error ends with its message, which a name of its
/// category precedes.
pub proof fn law_shown_error_names_category_and_message(error: Error, shown: String, name: String)
    requires
        call_ensures(Error::display, (&error,), shown),
        call_ensures(ErrorKind::name, (error.kind,), name),
    ensures
        shown@ == "clickhouse-c: "@ + name@ + ": "@ + error.message@,
{
}

/// An error of the standard library becomes one of the transport, which no
/// server sent.
pub proof fn law_standard_error_is_a_transport_error(e: std::io::Error, error: Error)
    requires
        call_ensures(Error::from_io, (e,), error),
    ensures
        error.kind == ErrorKind::Io,
        error.server_code == 0,
        error.server_name@.len() == 0,
        to_string_from_display_ensures::<std::io::Error>(&e, error.message),
{
}

/// Only the code of success is a success. Any other code is an error of the
/// category of that code, with the text that the record holds up to its first
/// zero byte.
pub proof fn law_only_success_code_succeeds(
    rc: i32,
    err: sys::chc_err,
    result: Result<(), Error>,
    kind: ErrorKind,
)
    requires
        call_ensures(check, (rc, &err), result),
        call_ensures(ErrorKind::from_code, (rc,), kind),
    ensures
        result is Ok <==> rc == sys::CHC_OK,
        result matches Err(e) ==> {
            &&& e.kind == kind
            &&& e.message@ == text::c_text(err.msg@)
            &&& rc == sys::CHC_ERR_SERVER ==> e.server_code == err.server_code && e.server_name@
                == text::c_text(err.server_name@)
            &&& rc != sys::CHC_ERR_SERVER ==> e.server_code == 0 && e.server_name@.len() == 0
        },
{
}

/// A failed operation is reported with the error that its code and its record
/// describe, by whichever way it is read.
pub proof fn law_check_reads_the_record(
    rc: i32,
    err: sys::chc_err,
    result: Result<(), Error>,
    error: Error,
)
    requires
        rc != sys::CHC_OK,
        call_ensures(check, (rc, &err), result),
        call_ensures(Error::from_raw, (rc, &err), error),
    ensures
        result matches Err(e) && e.kind == error.kind && e.server_code == error.server_code
            && e.message@ == error.message@ && e.server_name@ == error.server_name@,
{
}

/// The error of a record has the category of its code and the text that the
/// record holds in front of a zero byte. Code and name of the server come from
/// the record where the server failed, and only there.
pub proof fn law_error_says_what_the_record_says(
    code: i32,
    err: sys::chc_err,
    error: Error,
    s: Seq<char>,
    rest: Seq<u8>,
    name: Seq<char>,
    name_rest: Seq<u8>,
)
    requires
        call_ensures(Error::from_raw, (code, &err), error),
        err.msg@ == vstd::utf8::encode_utf8(s).push(0) + rest,
        !vstd::utf8::encode_utf8(s).contains(0),
        err.server_name@ == vstd::utf8::encode_utf8(name).push(0) + name_rest,
        !vstd::utf8::encode_utf8(name).contains(0),
    ensures
        error.message@ == s,
        error.kind.spec_code() == code,
        code == sys::CHC_ERR_SERVER <==> error.kind == ErrorKind::Server,
        code == sys::CHC_ERR_SERVER ==> error.server_code == err.server_code && error.server_name@
            == name,
        code != sys::CHC_ERR_SERVER ==> error.server_code == 0 && error.server_name@.len() == 0,
{
    text::lemma_stored_text(err.msg@, s, rest);
    text::lemma_stored_text(err.server_name@, name, name_rest);
}

} // verus!
