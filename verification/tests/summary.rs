use rustls::pki_types::InvalidDnsNameError;
use sni_prob::error::{IoError, IoErrorKind, ProbeError, TlsErrorKind};
use sni_prob::types::{EntryStatus, Ipv4Address, ProbeResult, ResultEntry};
use sni_prob::utils::{probe_plan, Summary};

fn io_error(kind: IoErrorKind, tls_source: Option<TlsErrorKind>) -> IoError {
    IoError { kind, message: String::from("x"), tls_source }
}

fn entry(outcome: Result<ProbeResult, ProbeError>) -> ResultEntry {
    ResultEntry::from_probe(&String::from("d.com"), Ipv4Address::new(1, 2, 3, 4), &outcome)
}

fn blocked() -> ResultEntry {
    entry(Ok(ProbeResult::handshake_failed(
        String::from("d.com"),
        Ipv4Address::new(1, 2, 3, 4),
        io_error(IoErrorKind::ConnectionReset, None),
    )))
}

fn mismatch() -> ResultEntry {
    entry(Ok(ProbeResult::handshake_failed(
        String::from("d.com"),
        Ipv4Address::new(1, 2, 3, 4),
        io_error(IoErrorKind::InvalidData, Some(TlsErrorKind::InvalidCertificate)),
    )))
}

fn other_error() -> ResultEntry {
    entry(Ok(ProbeResult::handshake_failed(
        String::from("d.com"),
        Ipv4Address::new(1, 2, 3, 4),
        io_error(IoErrorKind::TimedOut, None),
    )))
}

fn success() -> ResultEntry {
    entry(Ok(ProbeResult::completed(String::from("d.com"), Ipv4Address::new(1, 2, 3, 4), 10)))
}

fn failed() -> ResultEntry {
    entry(Err(ProbeError::InvalidDomain(InvalidDnsNameError)))
}

#[test]
fn entry_from_blocked_result() {
    let e = blocked();
    assert!(e.blocked && !e.success && !e.cert_mismatch && !e.error);
    assert_eq!(e.status(), EntryStatus::Blocked);
    assert_eq!(e.domain, "d.com");
    assert_eq!(e.ip, Ipv4Address::new(1, 2, 3, 4));
}

#[test]
fn entry_from_mismatch_result() {
    let e = mismatch();
    assert!(!e.blocked && !e.success && e.cert_mismatch && !e.error);
    assert_eq!(e.status(), EntryStatus::SuccessCertMismatch);
}

#[test]
fn entry_from_other_error_is_labelled_other_error() {
    let e = other_error();
    assert!(!e.blocked && !e.success && !e.cert_mismatch && !e.error);
    assert_eq!(e.status(), EntryStatus::OtherError);
}

#[test]
fn entry_from_success_result() {
    let e = success();
    assert!(!e.blocked && e.success && !e.cert_mismatch && !e.error);
    assert_eq!(e.status(), EntryStatus::Success);
}

#[test]
fn entry_from_failed_probe() {
    let e = failed();
    assert!(!e.blocked && !e.success && !e.cert_mismatch && e.error);
    assert_eq!(e.status(), EntryStatus::ProbeFailed);
}

#[test]
fn summary_counts_each_tally() {
    let entries = vec![blocked(), mismatch(), other_error(), success(), success(), failed(), blocked()];
    let s = Summary::of(&entries);
    assert_eq!(s.total, 7);
    assert_eq!(s.success, 2);
    assert_eq!(s.blocked, 2);
    assert_eq!(s.cert_mismatch, 1);
    assert_eq!(s.errors, 1);
    assert!(s.success + s.blocked + s.cert_mismatch + s.errors <= s.total);
    assert!(s.found_blocking());
}

#[test]
fn summary_without_blocking() {
    let entries = vec![success(), mismatch()];
    let s = Summary::of(&entries);
    assert_eq!(s, Summary { total: 2, success: 1, blocked: 0, cert_mismatch: 1, errors: 0 });
    assert!(!s.found_blocking());
}

#[test]
fn summary_of_nothing() {
    let s = Summary::of(&vec![]);
    assert_eq!(s, Summary { total: 0, success: 0, blocked: 0, cert_mismatch: 0, errors: 0 });
}

#[test]
fn plan_runs_every_domain_per_address() {
    assert_eq!(probe_plan(2, 3), vec![(0, 0), (0, 1), (0, 2), (1, 0), (1, 1), (1, 2)]);
    assert_eq!(probe_plan(3, 1), vec![(0, 0), (1, 0), (2, 0)]);
    assert!(probe_plan(0, 5).is_empty());
    assert!(probe_plan(4, 0).is_empty());
}

#[test]
fn plan_tests_each_pair_once() {
    let plan = probe_plan(4, 5);
    assert_eq!(plan.len(), 20);
    for i in 0..4 {
        for j in 0..5 {
            assert_eq!(plan.iter().filter(|p| **p == (i, j)).count(), 1);
            assert_eq!(plan[i * 5 + j], (i, j));
        }
    }
}
