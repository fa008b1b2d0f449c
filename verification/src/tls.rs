//! TLS peer names, root certificates, and transport errors.

use std::sync::Arc;

use rustls::pki_types::{InvalidDnsNameError, ServerName};
use rustls::{ClientConfig, RootCertStore};
use vstd::prelude::*;
use vstd::string::*;

use crate::error;
use crate::error::{Error, ErrorKind};
use crate::sys;
use crate::text;

verus! {

/// `rustls::pki_types::ServerName`, carried through without a look inside.
#[verifier::external_type_specification]
#[verifier::external_body]
pub struct ExServerName<'a>(ServerName<'a>);

/// `rustls::pki_types::InvalidDnsNameError`, carried through without a look
/// inside.
#[verifier::external_type_specification]
#[verifier::external_body]
pub struct ExInvalidDnsNameError(InvalidDnsNameError);

/// `rustls::RootCertStore`, a list of trust anchors.
#[verifier::external_type_specification]
#[verifier::external_body]
pub struct ExRootCertStore(RootCertStore);

/// `rustls::ClientConfig`, which holds the trust anchors of its peers.
#[verifier::external_type_specification]
#[verifier::external_body]
pub struct ExClientConfig(ClientConfig);

/// Peer name that `ServerName::try_from` makes of a text, where it makes one.
pub uninterp spec fn parsed_server_name(name: Seq<char>) -> Option<ServerName<'static>>;

/// Trust anchors of a store, in order: subject, public key and name
/// constraints of each.
pub uninterp spec fn root_anchors(store: RootCertStore) -> Seq<
    (Seq<u8>, Seq<u8>, Option<Seq<u8>>),
>;

/// Trust anchors `before`, followed by those of Mozilla.
pub uninterp spec fn with_mozilla_anchors(
    before: Seq<(Seq<u8>, Seq<u8>, Option<Seq<u8>>)>,
) -> Seq<(Seq<u8>, Seq<u8>, Option<Seq<u8>>)>;

/// Trust anchors against which a configuration verifies its peers, in order.
pub uninterp spec fn config_anchors(config: ClientConfig) -> Seq<
    (Seq<u8>, Seq<u8>, Option<Seq<u8>>),
>;

/// Whether a configuration has a certificate to authenticate the client with.
pub uninterp spec fn config_has_client_certs(config: ClientConfig) -> bool;

/// `ServerName::try_from` for a string.
///
/// Claims that the outcome depends on the text alone.
#[verifier::external_body]
fn parse_server_name(name: String) -> (parsed: Result<ServerName<'static>, InvalidDnsNameError>)
    ensures
        match parsed {
            Ok(peer) => parsed_server_name(name@) == Some(peer),
            Err(_) => parsed_server_name(name@) is None,
        },
{
    ServerName::try_from(name)
}

/// `RootCertStore::empty`.
///
/// Claims that the new store holds no trust anchor.
#[verifier::external_body]
fn empty_roots() -> (store: RootCertStore)
    ensures
        root_anchors(store).len() == 0,
{
    RootCertStore::empty()
}

/// `RootCertStore::extend` with `webpki_roots::TLS_SERVER_ROOTS`.
///
/// Claims that what the store then holds depends on what it held alone, and
/// that it keeps its trust anchors, in order, and gains at least one behind
/// them.
#[verifier::external_body]
fn extend_with_mozilla_roots(store: &mut RootCertStore)
    ensures
        root_anchors(*final(store)) == with_mozilla_anchors(root_anchors(*old(store))),
        root_anchors(*final(store)).len() > root_anchors(*old(store)).len(),
        root_anchors(*final(store)).take(root_anchors(*old(store)).len() as int)
            == root_anchors(*old(store)),
{
    store.extend(webpki_roots::TLS_SERVER_ROOTS.iter().cloned())
}

/// `ClientConfig::builder_with_provider` with the aws-lc-rs provider, its
/// default protocol versions, the given roots, and no client authentication.
///
/// Claims that the configuration verifies its peers against the given roots,
/// and that its `client_auth_cert_resolver` has no certificate. Protocol
/// versions and cryptography are left unsaid: the provider selects them,
/// independently of process-wide configuration.
#[verifier::external_body]
fn client_config(roots: RootCertStore) -> (config: Arc<ClientConfig>)
    ensures
        config_anchors(*config) == root_anchors(roots),
        !config_has_client_certs(*config),
{
    let provider = Arc::new(rustls::crypto::aws_lc_rs::default_provider());
    let config = ClientConfig::builder_with_provider(provider)
        .with_safe_default_protocol_versions()
        .expect("aws-lc-rs supports the safe default protocol versions")
        .with_root_certificates(roots)
        .with_no_client_auth();
    Arc::new(config)
}

/// Error for a peer name that is none.
pub open spec fn invalid_server_name(domain: Seq<char>) -> error::ErrorView {
    error::usage_error("invalid TLS server name: "@ + domain)
}

/// Turns the outcome of a parse of `domain` into one of this crate.
pub fn server_name_result(
    parsed: Result<ServerName<'static>, InvalidDnsNameError>,
    domain: &str,
) -> (result: Result<ServerName<'static>, Error>)
    ensures
        match result {
            Ok(peer) => parsed == Ok::<_, InvalidDnsNameError>(peer),
            Err(e) => parsed is Err && e@ == invalid_server_name(domain@),
        },
{
    match parsed {
        Ok(peer) => Ok(peer),
        Err(_) => {
            let mut message = "invalid TLS server name: ".to_owned();
            message.append(domain);
            Err(Error::usage(message))
        },
    }
}

/// Parses the name of a TLS peer: a DNS name or an IP address.
pub fn server_name(domain: &str) -> (result: Result<ServerName<'static>, Error>)
    ensures
        match result {
            Ok(peer) => parsed_server_name(domain@) == Some(peer),
            Err(e) => parsed_server_name(domain@) is None && e@ == invalid_server_name(domain@),
        },
{
    server_name_result(parse_server_name(domain.to_owned()), domain)
}

/// Mozilla root certificates.
pub fn default_roots() -> (roots: RootCertStore)
    ensures
        root_anchors(roots) == with_mozilla_anchors(Seq::empty()),
        root_anchors(roots).len() > 0,
{
    let mut roots = empty_roots();
    assert(root_anchors(roots) =~= Seq::empty());
    extend_with_mozilla_roots(&mut roots);
    roots
}

/// Creates client configuration using Mozilla webpki roots without client
/// authentication.
///
/// Use [`config_with_roots`] or rustls APIs for private certificate
/// authorities or mutual TLS.
pub fn default_config() -> (config: Arc<ClientConfig>)
    ensures
        config_anchors(*config) == with_mozilla_anchors(Seq::empty()),
        config_anchors(*config).len() > 0,
        !config_has_client_certs(*config),
{
    config_with_roots(default_roots())
}

/// Creates client configuration using provided roots without client
/// authentication.
pub fn config_with_roots(roots: RootCertStore) -> (config: Arc<ClientConfig>)
    ensures
        config_anchors(*config) == root_anchors(roots),
        !config_has_client_certs(*config),
{
    client_config(roots)
}

/// Number of bytes of a message that fit an error record of `cap` bytes.
pub open spec fn stored_len(message: nat, cap: nat) -> nat {
    if message <= cap - 1 {
        message
    } else {
        (cap - 1) as nat
    }
}

/// Message field after `message` was copied into it.
pub open spec fn stored_message(field: Seq<u8>, message: Seq<u8>) -> Seq<u8> {
    if field.len() == 0 {
        field
    } else {
        let n = stored_len(message.len(), field.len()) as int;
        message.take(n).push(0) + field.skip(n + 1)
    }
}

/// Copies null-terminated message into error record and returns `code`.
pub fn set_err(err: &mut sys::chc_err, code: i32, message: &str) -> (rc: i32)
    ensures
        rc == code,
        final(err).server_code == 0,
        final(err).server_name@ == old(err).server_name@,
        final(err).msg@ == stored_message(old(err).msg@, vstd::utf8::encode_utf8(message@)),
{
    err.server_code = 0;
    let cap: usize = err.msg.len();
    if cap > 0 {
        let bytes = message.as_bytes();
        let n: usize = if bytes.len() <= cap - 1 {
            bytes.len()
        } else {
            cap - 1
        };
        let mut i: usize = 0;
        while i < n
            invariant
                i <= n < cap,
                n <= bytes@.len(),
                err.msg@.len() == cap,
                old(err).msg@.len() == cap,
                err.server_code == 0,
                err.server_name@ == old(err).server_name@,
                err.msg@ == bytes@.take(i as int) + old(err).msg@.skip(i as int),
            decreases n - i,
        {
            err.msg[i] = bytes[i];
            i = i + 1;
            assert(err.msg@ =~= bytes@.take(i as int) + old(err).msg@.skip(i as int));
        }
        err.msg[n] = 0;
        assert(err.msg@ =~= bytes@.take(n as int).push(0) + old(err).msg@.skip(n + 1));
    }
    code
}

/// Error of a TLS transport that failed at `stage` because of `cause`.
pub open spec fn spec_transport_error(stage: Seq<char>, cause: Seq<char>) -> error::ErrorView {
    error::local_error(ErrorKind::Io, stage + ": "@ + cause)
}

/// Creates the error of a TLS transport that failed at `stage`.
pub fn transport_error(stage: &str, cause: &str) -> (error: Error)
    ensures
        error@ == spec_transport_error(stage@, cause@),
{
    let mut message = stage.to_owned();
    message.append(": ");
    message.append(cause);
    Error::new(ErrorKind::Io, message)
}

/// Turns the outcome of a TLS read into a result code. A success stores the
/// count, and zero stands for the end of the stream.
pub fn finish_read(result: Result<usize, String>, out_n: &mut usize, err: &mut sys::chc_err) -> (rc:
    i32)
    ensures
        match result {
            Ok(n) => {
                &&& rc == sys::CHC_OK
                &&& *final(out_n) == n
                &&& *final(err) == *old(err)
            },
            Err(e) => {
                &&& rc == sys::CHC_ERR_IO
                &&& *final(out_n) == *old(out_n)
                &&& final(err).server_code == 0
                &&& final(err).server_name@ == old(err).server_name@
                &&& final(err).msg@ == stored_message(
                    old(err).msg@,
                    vstd::utf8::encode_utf8("tls read: "@ + e@),
                )
            },
        },
{
    match result {
        Ok(n) => {
            *out_n = n;
            sys::CHC_OK
        },
        Err(e) => {
            let mut message = "tls read: ".to_owned();
            message.append(e.as_str());
            set_err(err, sys::CHC_ERR_IO, message.as_str())
        },
    }
}

/// Turns the outcome of a TLS write into a result code.
pub fn finish_write(result: Result<(), String>, err: &mut sys::chc_err) -> (rc: i32)
    ensures
        match result {
            Ok(()) => rc == sys::CHC_OK && *final(err) == *old(err),
            Err(e) => {
                &&& rc == sys::CHC_ERR_IO
                &&& final(err).server_code == 0
                &&& final(err).server_name@ == old(err).server_name@
                &&& final(err).msg@ == stored_message(
                    old(err).msg@,
                    vstd::utf8::encode_utf8("tls write: "@ + e@),
                )
            },
        },
{
    match result {
        Ok(()) => sys::CHC_OK,
        Err(e) => {
            let mut message = "tls write: ".to_owned();
            message.append(e.as_str());
            set_err(err, sys::CHC_ERR_IO, message.as_str())
        },
    }
}

/// A message without null bytes that was copied into an error record is read
/// back up to the capacity of the record.
pub proof fn law_stored_message_reads_back(field: Seq<u8>, message: Seq<u8>)
    requires
        field.len() > 0,
        !message.contains(0),
    ensures
        stored_message(field, message).len() == field.len(),
        text::c_text(stored_message(field, message)) == text::decoded(
            message.take(stored_len(message.len(), field.len()) as int),
        ),
{
    let n = stored_len(message.len(), field.len()) as int;
    let stored = stored_message(field, message);
    assert forall|i: int| 0 <= i < n implies #[trigger] stored[i] != 0 by {
        assert(stored[i] == message[i]);
        assert(message.contains(message[i]));
    }
    assert(stored[n] == 0);
    text::lemma_first_nul_is(stored, n as nat);
    assert(stored.take(n) =~= message.take(n));
}

/// A message that was copied into an error record reaches whoever checks the
/// result code, as an error of the transport that no server sent.
pub proof fn law_transport_error_reaches_caller(err: sys::chc_err, field: Seq<u8>, message: Seq<u8>)
    requires
        field.len() > 0,
        !message.contains(0),
        err.server_code == 0,
        err.msg@ == stored_message(field, message),
    ensures
        error::checked(sys::CHC_ERR_IO, err) matches Err(e) && e.kind == ErrorKind::Io
            && e.server_code == 0 && e.message == text::decoded(
            message.take(stored_len(message.len(), field.len()) as int),
        ),
{
    law_stored_message_reads_back(field, message);
}

/// A text that fits an error record reaches whoever checks the result code
/// unchanged.
pub proof fn law_short_transport_error_is_unchanged(
    err: sys::chc_err,
    field: Seq<u8>,
    s: Seq<char>,
)
    requires
        vstd::utf8::encode_utf8(s).len() < field.len(),
        !vstd::utf8::encode_utf8(s).contains(0),
        err.server_code == 0,
        err.msg@ == stored_message(field, vstd::utf8::encode_utf8(s)),
    ensures
        error::checked(sys::CHC_ERR_IO, err) matches Err(e) && e == error::local_error(
            ErrorKind::Io,
            s,
        ),
{
    let message = vstd::utf8::encode_utf8(s);
    law_stored_message_reads_back(field, message);
    assert(message.take(message.len() as int) =~= message);
    text::law_encoded_text_is_decoded(s);
}

/// A peer name that was parsed is used, and one that was not is misuse. The
/// error repeats it.
pub proof fn law_peer_name_is_used_or_refused(
    parsed: Result<ServerName<'static>, InvalidDnsNameError>,
    domain: &str,
    result: Result<ServerName<'static>, Error>,
)
    requires
        call_ensures(server_name_result, (parsed, domain), result),
    ensures
        match (parsed, result) {
            (Ok(name), Ok(peer)) => peer == name,
            (Err(_), Err(e)) => e.kind == ErrorKind::Usage && e.message@
                == "invalid TLS server name: "@ + domain@ && e.server_code == 0
                && e.server_name@.len() == 0,
            _ => false,
        },
{
}

/// A peer name is used exactly where the text of it parses.
pub proof fn law_peer_name_is_the_parsed_one(
    domain: &str,
    result: Result<ServerName<'static>, Error>,
)
    requires
        call_ensures(server_name, (domain,), result),
    ensures
        match (parsed_server_name(domain@), result) {
            (Some(name), Ok(peer)) => peer == name,
            (None, Err(e)) => e.kind == ErrorKind::Usage && e.message@
                == "invalid TLS server name: "@ + domain@,
            _ => false,
        },
{
}

/// A configuration trusts exactly the roots that it was given, or those of
/// Mozilla, and authenticates no client.
pub proof fn law_configuration_trusts_its_roots(
    roots: RootCertStore,
    config: Arc<ClientConfig>,
    mozilla: RootCertStore,
    default: Arc<ClientConfig>,
)
    requires
        call_ensures(config_with_roots, (roots,), config),
        call_ensures(default_roots, (), mozilla),
        call_ensures(default_config, (), default),
    ensures
        config_anchors(*config) == root_anchors(roots),
        config_anchors(*default) == root_anchors(mozilla),
        root_anchors(mozilla) == with_mozilla_anchors(Seq::empty()),
        root_anchors(mozilla).len() > 0,
        !config_has_client_certs(*config) && !config_has_client_certs(*default),
{
}

/// Whether `after` is `before` with `message` copied into its text: as many
/// bytes as leave room for a null byte, that null byte, and the old bytes behind
/// it. No server is named as the origin.
pub open spec fn is_filled(before: sys::chc_err, after: sys::chc_err, message: Seq<char>) -> bool {
    let bytes = vstd::utf8::encode_utf8(message);
    let cap = before.msg@.len();
    &&& after.server_code == 0
    &&& after.server_name@ == before.server_name@
    &&& after.msg@.len() == cap
    &&& forall|i: int| 0 <= i < cap - 1 && i < bytes.len() ==> #[trigger] after.msg@[i] == bytes[i]
    &&& cap > 0 && bytes.len() < cap ==> after.msg@[bytes.len() as int] == 0
    &&& cap > 0 && bytes.len() >= cap ==> after.msg@[cap - 1] == 0
    &&& forall|i: int|
        bytes.len() < i < cap ==> #[trigger] after.msg@[i] == before.msg@[i]
}

/// The code is returned as given, and the message fills the record.
pub proof fn law_message_fills_the_record(
    err: &mut sys::chc_err,
    code: i32,
    message: &str,
    rc: i32,
)
    requires
        call_ensures(set_err, (err, code, message), rc),
    ensures
        rc == code,
        is_filled(*old(err), *final(err), message@),
{
    let bytes = vstd::utf8::encode_utf8(message@);
    lemma_is_filled(old(err).msg@, final(err).msg@, bytes);
}

/// Bytes of a message field into which a message was copied.
proof fn lemma_is_filled(before: Seq<u8>, after: Seq<u8>, bytes: Seq<u8>)
    requires
        after == stored_message(before, bytes),
    ensures
        after.len() == before.len(),
        forall|i: int|
            0 <= i < before.len() - 1 && i < bytes.len() ==> #[trigger] after[i] == bytes[i],
        before.len() > 0 && bytes.len() < before.len() ==> after[bytes.len() as int] == 0,
        before.len() > 0 && bytes.len() >= before.len() ==> after[before.len() - 1] == 0,
        forall|i: int| bytes.len() < i < before.len() ==> #[trigger] after[i] == before[i],
{
}

/// A read that succeeded reports success and its count, and leaves the record
/// alone. One that failed reports an error of the transport, leaves the count
/// alone, and fills the record with its stage and cause.
pub proof fn law_read_reports_count_or_cause(
    result: Result<usize, String>,
    out_n: &mut usize,
    err: &mut sys::chc_err,
    rc: i32,
)
    requires
        call_ensures(finish_read, (result, out_n, err), rc),
    ensures
        match result {
            Ok(n) => rc == sys::CHC_OK && *final(out_n) == n && *final(err) == *old(err),
            Err(cause) => rc == sys::CHC_ERR_IO && *final(out_n) == *old(out_n) && is_filled(
                *old(err),
                *final(err),
                "tls read: "@ + cause@,
            ),
        },
{
    if let Err(cause) = result {
        let bytes = vstd::utf8::encode_utf8("tls read: "@ + cause@);
        lemma_is_filled(old(err).msg@, final(err).msg@, bytes);
    }
}

/// A write that succeeded reports success and leaves the record alone. One that
/// failed reports an error of the transport and fills the record with its stage
/// and cause.
pub proof fn law_write_reports_success_or_cause(
    result: Result<(), String>,
    err: &mut sys::chc_err,
    rc: i32,
)
    requires
        call_ensures(finish_write, (result, err), rc),
    ensures
        match result {
            Ok(()) => rc == sys::CHC_OK && *final(err) == *old(err),
            Err(cause) => rc == sys::CHC_ERR_IO && is_filled(
                *old(err),
                *final(err),
                "tls write: "@ + cause@,
            ),
        },
{
    if let Err(cause) = result {
        let bytes = vstd::utf8::encode_utf8("tls write: "@ + cause@);
        lemma_is_filled(old(err).msg@, final(err).msg@, bytes);
    }
}

/// An error of the transport names its stage in front of its cause.
pub proof fn law_transport_error_names_stage_and_cause(stage: &str, cause: &str, error: Error)
    requires
        call_ensures(transport_error, (stage, cause), error),
    ensures
        error.kind == ErrorKind::Io,
        error.message@ == stage@ + ": "@ + cause@,
        error.server_code == 0 && error.server_name@.len() == 0,
{
}

} // verus!
