use vstd::prelude::*;
use std::sync::Arc;
use rustls::pki_types::{InvalidDnsNameError, ServerName};
use rustls::{ClientConfig, ClientConnection, RootCertStore};
use crate::error::ProbeError;

verus! {

#[verifier::external_type_specification]
#[verifier::external_body]
pub struct ExTlsError(rustls::Error);

#[verifier::external_type_specification]
#[verifier::external_body]
pub struct ExInvalidDnsNameError(InvalidDnsNameError);

#[verifier::external_type_specification]
#[verifier::external_body]
pub struct ExServerName<'a>(ServerName<'a>);

#[verifier::external_type_specification]
#[verifier::external_body]
pub struct ExRootCertStore(RootCertStore);

#[verifier::external_type_specification]
#[verifier::external_body]
pub struct ExClientConfig(ClientConfig);

#[verifier::external_type_specification]
#[verifier::external_body]
pub struct ExClientConnection(ClientConnection);

/// Whether `ServerName::try_from` accepts the text as a server name: a
/// syntactically valid DNS name, or an IPv4 or IPv6 address.
pub uninterp spec fn server_name_accepts(name: Seq<char>) -> bool;

/// Whether the text is a syntactically valid DNS name (`DnsName::try_from`),
/// which `ServerName::try_from` tries first, before an IP address.
pub uninterp spec fn dns_name_accepts(name: Seq<char>) -> bool;

/// The SNI that a handshake sends for a server name parsed from `text`: a DNS
/// name is sent without one trailing dot; an IP address gets no SNI.
pub open spec fn sni_for(text: Seq<char>, is_dns: bool) -> Option<Seq<char>> {
    if !is_dns {
        None
    } else if text.len() > 0 && text.last() == '.' {
        Some(text.drop_last())
    } else {
        Some(text)
    }
}

/// Builds a root store holding the Mozilla roots that `webpki_roots` ships
/// (`webpki_roots::TLS_SERVER_ROOTS`).  Nothing is stated of the store.
#[verifier::external_body]
fn webpki_root_store() -> (store: RootCertStore) {
    RootCertStore { roots: webpki_roots::TLS_SERVER_ROOTS.to_vec() }
}

/// Calls `ClientConfig::builder().with_root_certificates(roots).with_no_client_auth()`:
/// a client configuration that checks server certificates against `roots`
/// and presents none itself.  The builder takes the crypto provider from the
/// crate features (here `ring`), so it does not panic.  Nothing is stated of
/// the configuration.
#[verifier::external_body]
fn client_config(roots: RootCertStore) -> (config: ClientConfig) {
    ClientConfig::builder().with_root_certificates(roots).with_no_client_auth()
}

/// A server name together with the text it was parsed from.
pub struct CheckedServerName {
    name: ServerName<'static>,
    source: Ghost<Seq<char>>,
    dns: Ghost<bool>,
}

impl CheckedServerName {
    /// The text the server name was parsed from.
    pub closed spec fn text(self) -> Seq<char> {
        self.source@
    }

    /// Whether the name is a DNS name (and not an IP address).
    pub closed spec fn is_dns(self) -> bool {
        self.dns@
    }
}

/// The client configuration of a probe: the `webpki_roots` trust anchors, no
/// client certificate, SNI enabled and no encrypted client hello.
pub struct ProbeConfig {
    config: Arc<ClientConfig>,
}

/// The client side of a TLS connection, together with the SNI its handshake
/// sends (`None` where it sends none).
pub struct TlsClient {
    conn: ClientConnection,
    sni: Ghost<Option<Seq<char>>>,
}

impl TlsClient {
    /// The SNI the handshake sends, if any.
    pub closed spec fn sni(self) -> Option<Seq<char>> {
        self.sni@
    }

    /// The connection, to drive the handshake with.
    pub fn into_connection(self) -> ClientConnection {
        self.conn
    }
}

/// A TLS error together with its message (what its `Display` writes).
#[derive(Debug)]
pub struct TlsError {
    pub error: rustls::Error,
    pub message: String,
}

/// Calls `ServerName::try_from` on an owned copy of `domain`.  It succeeds
/// exactly when the text is accepted as a server name; the name it gives is
/// the one parsed from `domain`, and it is a DNS name exactly when `domain`
/// is a valid DNS name (tried first), else an IP address.
#[verifier::external_body]
fn server_name_for(domain: &str) -> (r: Result<CheckedServerName, InvalidDnsNameError>)
    ensures
        r is Ok <==> server_name_accepts(domain@),
        dns_name_accepts(domain@) ==> r is Ok,
        r matches Ok(n) ==> n.text() == domain@ && (n.is_dns() <==> dns_name_accepts(domain@)),
{
    match ServerName::try_from(domain.to_string()) {
        Ok(name) => {
            let dns = match &name {
                ServerName::DnsName(_) => true,
                ServerName::IpAddress(_) => false,
                _ => false,
            };
            Ok(CheckedServerName { name, source: Ghost(domain@), dns: Ghost(dns) })
        },
        Err(e) => Err(e),
    }
}

/// Calls `ClientConnection::new(config, name)`, which sets up the client side
/// of a handshake for that server name (drawing random bytes on the way).
/// With SNI enabled and no encrypted client hello, as in every probe
/// configuration, the handshake sends a DNS name as SNI without one trailing
/// dot, and no SNI for an IP address.  On failure it gives the error with its
/// message (`to_string`).  Whether it fails is not stated.
#[verifier::external_body]
fn client_connection_new(config: &ProbeConfig, name: CheckedServerName) -> (r: Result<
    TlsClient,
    TlsError,
>)
    ensures
        r matches Ok(c) ==> c.sni() == sni_for(name.text(), name.is_dns()),
{
    match ClientConnection::new(config.config.clone(), name.name) {
        Ok(conn) => Ok(TlsClient { conn, sni: Ghost(sni_for(name.source@, name.dns@)) }),
        Err(error) => Err(TlsError { message: error.to_string(), error }),
    }
}

/// Calls `to_string` on an `InvalidDnsNameError`, whose `Display` writes the
/// fixed text "invalid dns name".
#[verifier::external_body]
pub(crate) fn invalid_dns_name_text(e: &InvalidDnsNameError) -> (text: String)
    ensures
        text@ == "invalid dns name"@,
{
    e.to_string()
}

/// The client configuration every probe uses: the `webpki_roots` trust
/// anchors and no client certificate.
pub fn probe_client_config() -> (config: ProbeConfig) {
    let roots = webpki_root_store();
    ProbeConfig { config: Arc::new(client_config(roots)) }
}

/// Turns the outcome of parsing the server name into a client connection: a
/// rejected name is an `InvalidDomain` error carrying the parser's error; an
/// accepted one is handed to `ClientConnection::new`, whose failure becomes a
/// `RustlsError`.  The connection sends the parsed name as SNI if it is a
/// DNS name (without one trailing dot), and none for an IP address.
pub fn connection_for(
    config: &ProbeConfig,
    name: Result<CheckedServerName, InvalidDnsNameError>,
) -> (r: Result<TlsClient, ProbeError>)
    ensures
        name matches Err(e) ==> r == Err::<TlsClient, ProbeError>(ProbeError::InvalidDomain(e)),
        name is Ok ==> (r is Ok || r matches Err(ProbeError::RustlsError(_))),
        name matches Ok(n) ==> (r matches Ok(c) ==> c.sni() == sni_for(n.text(), n.is_dns())),
{
    match name {
        Err(e) => Err(ProbeError::InvalidDomain(e)),
        Ok(server_name) => match client_connection_new(config, server_name) {
            Ok(client) => Ok(client),
            Err(e) => Err(ProbeError::RustlsError(e)),
        },
    }
}

/// Prepares the TLS client side of a probe of `domain`: fails with
/// `InvalidDomain` exactly when `domain` is not a valid server name, and
/// otherwise yields a connection, or the `RustlsError` that set-up produced.
/// The connection sends `domain` as SNI (without one trailing dot) when it is
/// a DNS name, and no SNI when it is an IP address.
pub fn prepare_connection(domain: &str) -> (r: Result<TlsClient, ProbeError>)
    ensures
        !server_name_accepts(domain@) <==> r matches Err(ProbeError::InvalidDomain(_)),
        r is Ok || r matches Err(ProbeError::InvalidDomain(_)) || r matches Err(ProbeError::RustlsError(_)),
        r matches Ok(c) ==> c.sni() == sni_for(domain@, dns_name_accepts(domain@)),
        dns_name_accepts(domain@) ==> !(r matches Err(ProbeError::InvalidDomain(_))),
{
    let config = probe_client_config();
    let name = server_name_for(domain);
    connection_for(&config, name)
}

} // verus!
