use sni_prob::error::{IoError, IoErrorKind, TlsErrorKind};
use sni_prob::types::{Ipv4Address, ProbeResult, ResultStatus};
use sni_prob::utils::{is_certificate_error, is_connection_reset_error};

fn io_error(kind: IoErrorKind, tls_source: Option<TlsErrorKind>) -> IoError {
    IoError { kind, message: String::from("boom"), tls_source }
}

fn ip() -> Ipv4Address {
    Ipv4Address::new(8, 8, 8, 8)
}

#[test]
fn reset_kinds_are_connection_resets() {
    for kind in [
        IoErrorKind::ConnectionReset,
        IoErrorKind::ConnectionAborted,
        IoErrorKind::ConnectionRefused,
        IoErrorKind::BrokenPipe,
    ] {
        assert!(is_connection_reset_error(&io_error(kind, None)));
    }
}

#[test]
fn other_kinds_are_not_connection_resets() {
    for kind in [
        IoErrorKind::TimedOut,
        IoErrorKind::InvalidData,
        IoErrorKind::UnexpectedEof,
        IoErrorKind::NotConnected,
        IoErrorKind::Other,
        IoErrorKind::Uncategorized,
    ] {
        assert!(!is_connection_reset_error(&io_error(kind, None)));
    }
}

#[test]
fn certificate_error_needs_invalid_data_and_invalid_certificate() {
    assert!(is_certificate_error(&io_error(IoErrorKind::InvalidData, Some(TlsErrorKind::InvalidCertificate))));
    assert!(!is_certificate_error(&io_error(IoErrorKind::InvalidData, Some(TlsErrorKind::DecryptError))));
    assert!(!is_certificate_error(&io_error(IoErrorKind::InvalidData, None)));
    assert!(!is_certificate_error(&io_error(IoErrorKind::Other, Some(TlsErrorKind::InvalidCertificate))));
    assert!(!is_certificate_error(&io_error(
        IoErrorKind::ConnectionReset,
        Some(TlsErrorKind::InvalidCertificate)
    )));
}

#[test]
fn reset_during_handshake_is_blocked() {
    let r = ProbeResult::handshake_failed(
        String::from("google.com"),
        ip(),
        io_error(IoErrorKind::ConnectionReset, None),
    );
    assert!(r.blocked);
    assert!(!r.cert_mismatch);
    assert_eq!(r.stream_size, 0);
    assert_eq!(r.error.as_ref().unwrap().kind, IoErrorKind::ConnectionReset);
    assert_eq!(r.domain, "google.com");
    assert_eq!(r.ip, ip());
    assert_eq!(r.status(), ResultStatus::Blocked);
}

#[test]
fn certificate_mismatch_is_not_blocked() {
    let r = ProbeResult::handshake_failed(
        String::from("example.com"),
        ip(),
        io_error(IoErrorKind::InvalidData, Some(TlsErrorKind::InvalidCertificate)),
    );
    assert!(!r.blocked);
    assert!(r.cert_mismatch);
    assert_eq!(r.status(), ResultStatus::CertMismatch);
}

#[test]
fn timeout_is_another_error() {
    let r = ProbeResult::handshake_failed(String::from("example.com"), ip(), io_error(IoErrorKind::TimedOut, None));
    assert!(!r.blocked);
    assert!(!r.cert_mismatch);
    assert!(r.error.is_some());
    assert_eq!(r.status(), ResultStatus::OtherError);
}

#[test]
fn completed_handshake_is_success() {
    let r = ProbeResult::completed(String::from("example.com"), ip(), 517);
    assert!(!r.blocked);
    assert!(!r.cert_mismatch);
    assert_eq!(r.stream_size, 517);
    assert!(r.error.is_none());
    assert_eq!(r.status(), ResultStatus::Success);
}

#[test]
fn describes_blocked_result() {
    let r = ProbeResult::handshake_failed(
        String::from("twitter.com"),
        Ipv4Address::new(1, 1, 1, 1),
        io_error(IoErrorKind::ConnectionReset, None),
    );
    assert_eq!(r.to_text(), "🚫 twitter.com [1.1.1.1] 被墙 - Some(ConnectionReset)");
}

#[test]
fn describes_certificate_mismatch() {
    let r = ProbeResult::handshake_failed(
        String::from("example.com"),
        Ipv4Address::new(9, 9, 9, 9),
        io_error(IoErrorKind::InvalidData, Some(TlsErrorKind::InvalidCertificate)),
    );
    assert_eq!(r.to_text(), "✅ example.com [9.9.9.9] 连接成功（证书不匹配，读取 0 字节）");
}

#[test]
fn describes_other_error() {
    let r = ProbeResult::handshake_failed(
        String::from("example.com"),
        Ipv4Address::new(10, 0, 0, 255),
        io_error(IoErrorKind::TimedOut, None),
    );
    assert_eq!(r.to_text(), "⚠️ example.com [10.0.0.255] 其他错误 - Some(TimedOut)（读取 0 字节）");
}

#[test]
fn describes_success() {
    let r = ProbeResult::completed(String::from("example.com"), Ipv4Address::new(8, 8, 4, 4), 1024);
    assert_eq!(r.to_text(), "✅ example.com [8.8.4.4] 连接成功（读取 1024 字节）");
}

#[test]
fn describes_blocked_result_without_error() {
    let r = ProbeResult {
        domain: String::from("a.b"),
        ip: Ipv4Address::new(0, 0, 0, 0),
        blocked: true,
        cert_mismatch: false,
        stream_size: 0,
        error: None,
    };
    assert_eq!(r.to_text(), "🚫 a.b [0.0.0.0] 被墙 - None");
}

#[test]
fn kind_names_match_debug() {
    for kind in [
        IoErrorKind::ConnectionReset,
        IoErrorKind::BrokenPipe,
        IoErrorKind::InvalidData,
        IoErrorKind::TimedOut,
        IoErrorKind::UnexpectedEof,
        IoErrorKind::Uncategorized,
    ] {
        assert_eq!(kind.name(), format!("{:?}", kind));
    }
}
