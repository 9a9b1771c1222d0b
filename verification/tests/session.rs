use rustls::pki_types::InvalidDnsNameError;
use sni_prob::error::{IoError, IoErrorKind, ProbeError, TlsErrorKind};
use sni_prob::probe::{ProbeAction, ProbeEvent, ProbePhase, ProbeSession, READ_BUFFER_SIZE};
use sni_prob::tls::{connection_for, prepare_connection, probe_client_config, TlsError};
use sni_prob::types::Ipv4Address;

fn io_error(kind: IoErrorKind, tls_source: Option<TlsErrorKind>) -> IoError {
    IoError { kind, message: String::from("connection refused"), tls_source }
}

fn session(domain: &str) -> ProbeSession {
    let (s, action) = ProbeSession::start(String::from(domain), Ipv4Address::new(1, 1, 1, 1), 443);
    match action {
        ProbeAction::ConnectTcp(ip, port) => {
            assert_eq!(ip, Ipv4Address::new(1, 1, 1, 1));
            assert_eq!(port, 443);
        },
        _ => panic!("expected a connect"),
    }
    assert_eq!(s.port, 443);
    assert_eq!(s.phase, ProbePhase::Connecting);
    s
}

#[test]
fn valid_domain_gets_a_connection() {
    assert!(prepare_connection("example.com").is_ok());
    assert!(prepare_connection("1.1.1.1").is_ok());
    assert!(prepare_connection("example.com.").is_ok());
}

#[test]
fn ip_literal_domain_gets_a_handshake() {
    let mut s = session("8.8.8.8");
    assert!(matches!(s.step(ProbeEvent::TcpConnected), ProbeAction::Handshake(_)));
    assert_eq!(s.phase, ProbePhase::Handshaking);
}

#[test]
fn invalid_domain_is_rejected() {
    assert!(matches!(prepare_connection("not a domain"), Err(ProbeError::InvalidDomain(_))));
    assert!(matches!(prepare_connection(""), Err(ProbeError::InvalidDomain(_))));
    assert!(matches!(prepare_connection("-bad-.com"), Err(ProbeError::InvalidDomain(_))));
}

#[test]
fn connection_for_passes_on_a_name_error() {
    let r = connection_for(&probe_client_config(), Err(InvalidDnsNameError));
    assert!(matches!(r, Err(ProbeError::InvalidDomain(_))));
}

#[test]
fn tcp_failure_ends_with_connect_error() {
    let mut s = session("example.com");
    let ev = ProbeEvent::TcpFailed(io_error(IoErrorKind::ConnectionRefused, None));
    assert!(s.accepts(&ev));
    match s.step(ev) {
        ProbeAction::Finish(Err(ProbeError::TCPConnect(e))) => assert_eq!(e.kind, IoErrorKind::ConnectionRefused),
        _ => panic!("expected a TCP connect error"),
    }
    assert_eq!(s.phase, ProbePhase::Finished);
    assert!(!s.accepts(&ProbeEvent::TcpConnected));
}

#[test]
fn invalid_domain_ends_after_connecting() {
    let mut s = session("bad domain");
    assert!(matches!(s.step(ProbeEvent::TcpConnected), ProbeAction::Finish(Err(ProbeError::InvalidDomain(_)))));
    assert_eq!(s.phase, ProbePhase::Finished);
}

#[test]
fn reset_handshake_ends_blocked() {
    let mut s = session("twitter.com");
    assert!(matches!(s.step(ProbeEvent::TcpConnected), ProbeAction::Handshake(_)));
    assert_eq!(s.phase, ProbePhase::Handshaking);
    assert!(!s.accepts(&ProbeEvent::TcpConnected));
    match s.step(ProbeEvent::HandshakeFailed(io_error(IoErrorKind::ConnectionReset, None))) {
        ProbeAction::Finish(Ok(r)) => {
            assert!(r.blocked);
            assert!(!r.cert_mismatch);
            assert_eq!(r.domain, "twitter.com");
            assert_eq!(r.ip, Ipv4Address::new(1, 1, 1, 1));
        },
        _ => panic!("expected a result"),
    }
    assert_eq!(s.phase, ProbePhase::Finished);
}

#[test]
fn successful_handshake_then_read() {
    let mut s = session("example.com");
    assert!(matches!(s.step(ProbeEvent::TcpConnected), ProbeAction::Handshake(_)));
    assert!(matches!(s.step(ProbeEvent::HandshakeDone), ProbeAction::ReadResponse));
    assert_eq!(s.phase, ProbePhase::Reading);
    assert!(s.accepts(&ProbeEvent::ResponseRead(0)));
    assert!(s.accepts(&ProbeEvent::ResponseRead(READ_BUFFER_SIZE)));
    assert!(!s.accepts(&ProbeEvent::ResponseRead(READ_BUFFER_SIZE + 1)));
    match s.step(ProbeEvent::ResponseRead(42)) {
        ProbeAction::Finish(Ok(r)) => {
            assert!(!r.blocked && !r.cert_mismatch && r.error.is_none());
            assert_eq!(r.stream_size, 42);
        },
        _ => panic!("expected a result"),
    }
}

#[test]
fn certificate_failure_on_read_is_mismatch() {
    let mut s = session("example.com");
    assert!(matches!(s.step(ProbeEvent::TcpConnected), ProbeAction::Handshake(_)));
    assert!(matches!(s.step(ProbeEvent::HandshakeDone), ProbeAction::ReadResponse));
    let ev = ProbeEvent::ReadFailed(io_error(IoErrorKind::InvalidData, Some(TlsErrorKind::InvalidCertificate)));
    match s.step(ev) {
        ProbeAction::Finish(Ok(r)) => {
            assert!(!r.blocked);
            assert!(r.cert_mismatch);
            assert_eq!(r.stream_size, 0);
        },
        _ => panic!("expected a result"),
    }
}

#[test]
fn error_messages() {
    let e = ProbeError::TCPConnect(io_error(IoErrorKind::ConnectionRefused, None));
    assert_eq!(e.to_text(), "TCP 连接错误: connection refused");
    let e = ProbeError::InvalidDomain(InvalidDnsNameError);
    assert_eq!(e.to_text(), "无效域名: invalid dns name");
    let e = ProbeError::RustlsError(TlsError {
        error: rustls::Error::DecryptError,
        message: rustls::Error::DecryptError.to_string(),
    });
    assert_eq!(e.to_text(), format!("TLS 错误: {}", rustls::Error::DecryptError));
}

#[test]
fn conversions_into_probe_error() {
    assert!(matches!(ProbeError::from(io_error(IoErrorKind::TimedOut, None)), ProbeError::TCPConnect(_)));
    assert!(matches!(ProbeError::from(InvalidDnsNameError), ProbeError::InvalidDomain(_)));
    let tls = TlsError { error: rustls::Error::HandshakeNotComplete, message: String::from("m") };
    assert!(matches!(
        ProbeError::from(tls),
        ProbeError::RustlsError(TlsError { error: rustls::Error::HandshakeNotComplete, .. })
    ));
}
