use vstd::prelude::*;
use crate::error::{IoError, ProbeError};
use crate::tls::{dns_name_accepts, prepare_connection, server_name_accepts, sni_for, TlsClient};
use crate::types::{completed_result, failed_result, Ipv4Address, ProbeResult};

verus! {

/// Where a probe stands.
#[derive(Clone, Copy, Debug, PartialEq, Eq, Structural)]
pub enum ProbePhase {
    /// Waiting for the TCP connection to the address.
    Connecting,
    /// Waiting for the TLS handshake (sent with the domain as SNI where it is
    /// a DNS name).
    Handshaking,
    /// Waiting for the first read after the handshake.
    Reading,
    /// The probe has its outcome.
    Finished,
}

/// The most bytes the read after the handshake takes.
pub const READ_BUFFER_SIZE: usize = 1024;

/// What the network side reports back to a probe.
pub enum ProbeEvent {
    TcpConnected,
    TcpFailed(IoError),
    HandshakeDone,
    HandshakeFailed(IoError),
    ResponseRead(usize),
    ReadFailed(IoError),
}

/// What the network side is to do next for a probe.
pub enum ProbeAction {
    /// Open a TCP connection to this address and port.
    ConnectTcp(Ipv4Address, u16),
    /// Run the TLS handshake over the TCP connection with this client.
    Handshake(TlsClient),
    /// Read the server's first response over the TLS stream, at most
    /// `READ_BUFFER_SIZE` bytes.
    ReadResponse,
    /// The probe is over, with this outcome.
    Finish(Result<ProbeResult, ProbeError>),
}

/// One probe: connect to `ip` at `port`, then send a TLS handshake with `domain` as the
/// server name, and judge from how that goes whether the name is blocked.
pub struct ProbeSession {
    pub domain: String,
    pub ip: Ipv4Address,
    pub port: u16,
    pub phase: ProbePhase,
}

/// How far along a probe is; every step moves it further.
pub open spec fn phase_rank(phase: ProbePhase) -> nat {
    match phase {
        ProbePhase::Connecting => 0,
        ProbePhase::Handshaking => 1,
        ProbePhase::Reading => 2,
        ProbePhase::Finished => 3,
    }
}

/// The outcome that an action carries, if it ends the probe.
pub open spec fn outcome(action: ProbeAction) -> Option<Result<ProbeResult, ProbeError>> {
    match action {
        ProbeAction::Finish(o) => Some(o),
        _ => None,
    }
}

/// The action ends the probe with an `InvalidDomain` error.
pub open spec fn ends_with_invalid_domain(action: ProbeAction) -> bool {
    outcome(action) matches Some(Err(ProbeError::InvalidDomain(_)))
}

/// The action ends the probe with a `RustlsError`.
pub open spec fn ends_with_tls_setup_error(action: ProbeAction) -> bool {
    outcome(action) matches Some(Err(ProbeError::RustlsError(_)))
}

impl ProbeSession {
    /// Whether the event is one that the session waits for in its phase.
    pub open spec fn awaits(self, event: ProbeEvent) -> bool {
        match self.phase {
            ProbePhase::Connecting => event is TcpConnected || event is TcpFailed,
            ProbePhase::Handshaking => event is HandshakeDone || event is HandshakeFailed,
            ProbePhase::Reading => match event {
                ProbeEvent::ResponseRead(n) => n <= READ_BUFFER_SIZE,
                ProbeEvent::ReadFailed(_) => true,
                _ => false,
            },
            ProbePhase::Finished => false,
        }
    }

    /// Starts a probe of `domain` at `ip` and `port`; the first thing to do
    /// is to connect to that address (never to one found from the domain).
    pub fn start(domain: String, ip: Ipv4Address, port: u16) -> (r: (ProbeSession, ProbeAction))
        ensures
            r.0.domain == domain,
            r.0.ip == ip,
            r.0.port == port,
            r.0.phase == ProbePhase::Connecting,
            r.1 matches ProbeAction::ConnectTcp(a, p) && a == ip && p == port,
    {
        (ProbeSession { domain, ip, port, phase: ProbePhase::Connecting }, ProbeAction::ConnectTcp(ip, port))
    }

    /// Whether the session waits for this event now.
    pub fn accepts(&self, event: &ProbeEvent) -> (r: bool)
        ensures
            r == self.awaits(*event),
            r == (match self.phase {
                ProbePhase::Connecting => event is TcpConnected || event is TcpFailed,
                ProbePhase::Handshaking => event is HandshakeDone || event is HandshakeFailed,
                ProbePhase::Reading => (event matches ProbeEvent::ResponseRead(n) && n <= READ_BUFFER_SIZE)
                    || event is ReadFailed,
                ProbePhase::Finished => false,
            }),
    {
        match self.phase {
            ProbePhase::Connecting => match event {
                ProbeEvent::TcpConnected | ProbeEvent::TcpFailed(_) => true,
                _ => false,
            },
            ProbePhase::Handshaking => match event {
                ProbeEvent::HandshakeDone | ProbeEvent::HandshakeFailed(_) => true,
                _ => false,
            },
            ProbePhase::Reading => match event {
                ProbeEvent::ResponseRead(n) => *n <= READ_BUFFER_SIZE,
                ProbeEvent::ReadFailed(_) => true,
                _ => false,
            },
            ProbePhase::Finished => false,
        }
    }

    /// Takes the next event and says what to do next.
    ///
    /// - A failed TCP connection ends the probe with a `TCPConnect` error.
    /// - Once connected, the TLS client is set up for the domain: an invalid
    ///   domain ends the probe with `InvalidDomain`, a set-up failure with
    ///   `RustlsError`; otherwise the handshake runs.
    /// - A handshake that fails ends the probe with the failure classified;
    ///   one that succeeds is followed by a read.
    /// - The read ends the probe: with its byte count, or with its failure
    ///   classified.
    pub fn step(&mut self, event: ProbeEvent) -> (action: ProbeAction)
        requires
            old(self).awaits(event),
        ensures
            final(self).domain == old(self).domain,
            final(self).ip == old(self).ip,
            final(self).port == old(self).port,
            final(self).phase == (match action {
                ProbeAction::Finish(_) => ProbePhase::Finished,
                ProbeAction::Handshake(_) => ProbePhase::Handshaking,
                ProbeAction::ReadResponse => ProbePhase::Reading,
                ProbeAction::ConnectTcp(_, _) => ProbePhase::Connecting,
            }),
            !(action is ConnectTcp),
            phase_rank(final(self).phase) > phase_rank(old(self).phase),
            match event {
                ProbeEvent::TcpFailed(e) => outcome(action) == Some(
                    Err::<ProbeResult, ProbeError>(ProbeError::TCPConnect(e)),
                ),
                ProbeEvent::TcpConnected => {
                    &&& action is Handshake ==> server_name_accepts(old(self).domain@)
                    &&& action matches ProbeAction::Handshake(c) ==> c.sni() == sni_for(
                        old(self).domain@,
                        dns_name_accepts(old(self).domain@),
                    )
                    &&& !server_name_accepts(old(self).domain@) ==> ends_with_invalid_domain(action)
                    &&& server_name_accepts(old(self).domain@) ==> (action is Handshake
                        || ends_with_tls_setup_error(action))
                },
                ProbeEvent::HandshakeDone => action is ReadResponse,
                ProbeEvent::HandshakeFailed(e) => outcome(action) matches Some(Ok(r))
                    && failed_result(old(self).domain@, old(self).ip, e, r),
                ProbeEvent::ResponseRead(n) => outcome(action) matches Some(Ok(r))
                    && completed_result(old(self).domain@, old(self).ip, n, r)
                    && r.stream_size <= READ_BUFFER_SIZE,
                ProbeEvent::ReadFailed(e) => outcome(action) matches Some(Ok(r))
                    && failed_result(old(self).domain@, old(self).ip, e, r),
            },
    {
        match event {
            ProbeEvent::TcpFailed(e) => {
                self.phase = ProbePhase::Finished;
                ProbeAction::Finish(Err(ProbeError::TCPConnect(e)))
            },
            ProbeEvent::TcpConnected => match prepare_connection(self.domain.as_str()) {
                Ok(conn) => {
                    self.phase = ProbePhase::Handshaking;
                    ProbeAction::Handshake(conn)
                },
                Err(err) => {
                    self.phase = ProbePhase::Finished;
                    ProbeAction::Finish(Err(err))
                },
            },
            ProbeEvent::HandshakeDone => {
                self.phase = ProbePhase::Reading;
                ProbeAction::ReadResponse
            },
            ProbeEvent::HandshakeFailed(e) | ProbeEvent::ReadFailed(e) => {
                self.phase = ProbePhase::Finished;
                ProbeAction::Finish(Ok(ProbeResult::handshake_failed(self.domain.clone(), self.ip, e)))
            },
            ProbeEvent::ResponseRead(n) => {
                self.phase = ProbePhase::Finished;
                ProbeAction::Finish(Ok(ProbeResult::completed(self.domain.clone(), self.ip, n)))
            },
        }
    }
}

} // verus!
