use vstd::prelude::*;
use vstd::arithmetic::div_mod::{lemma_fundamental_div_mod, lemma_fundamental_div_mod_converse};
use vstd::arithmetic::mul::{lemma_mul_inequality, lemma_mul_is_distributive_add_other_way};
use crate::error::{is_certificate_failure, is_reset_kind, IoError, IoErrorKind, ProbeError, TlsErrorKind};
use crate::probe::{ProbeEvent, ProbePhase, ProbeSession, READ_BUFFER_SIZE};
use crate::types::{
    entry_for, failed_result, EntryStatus, Ipv4Address, ProbeResult, ResultEntry, ResultStatus,
};
use crate::utils::{count_where, counts_towards, planned_pair, Tally};

verus! {

/// A certificate failure is never a reset: the handshake got as far as the
/// certificate, so the connection was not torn down.
pub proof fn lemma_certificate_failure_is_not_reset(err: IoError)
    ensures
        is_certificate_failure(err) ==> !is_reset_kind(err.kind),
{
}

/// A probe whose handshake failed is reported blocked exactly when the
/// connection was reset, aborted, refused or broken, and a certificate
/// mismatch is never reported blocked.
pub proof fn lemma_blocked_iff_reset(domain: Seq<char>, ip: Ipv4Address, err: IoError, r: ProbeResult)
    requires
        failed_result(domain, ip, err, r),
    ensures
        r.blocked == is_reset_kind(err.kind),
        r.cert_mismatch ==> !r.blocked,
{
}

/// In a classified result, blocked and certificate mismatch exclude each
/// other, and both come with the error that caused them.
pub proof fn lemma_classified_flags(r: ProbeResult)
    requires
        r.is_classified(),
    ensures
        !(r.blocked && r.cert_mismatch),
        r.blocked ==> r.error is Some,
        r.cert_mismatch ==> r.error is Some,
{
}

/// A summary line counts towards at most one tally.
pub open spec fn at_most_one_tally(e: ResultEntry) -> bool {
    &&& counts_towards(Tally::Success, e) ==> !counts_towards(Tally::Blocked, e)
        && !counts_towards(Tally::CertMismatch, e) && !counts_towards(Tally::Error, e)
    &&& counts_towards(Tally::Blocked, e) ==> !counts_towards(Tally::CertMismatch, e)
        && !counts_towards(Tally::Error, e)
    &&& counts_towards(Tally::CertMismatch, e) ==> !counts_towards(Tally::Error, e)
}

/// The summary line of a probe with a classified result, or of a probe that
/// failed outright, counts towards at most one tally.
pub proof fn lemma_entry_in_at_most_one_tally(
    domain: Seq<char>,
    ip: Ipv4Address,
    outcome: Result<ProbeResult, ProbeError>,
    e: ResultEntry,
)
    requires
        entry_for(domain, ip, outcome, e),
        outcome matches Ok(r) ==> r.is_classified(),
    ensures
        at_most_one_tally(e),
{
}

/// When every line counts towards at most one tally, the four tallies
/// together never exceed the number of lines.  (Lines of probes that ended
/// with an error other than a block or a mismatch count towards none.)
pub proof fn lemma_tallies_within_total(entries: Seq<ResultEntry>)
    requires
        forall|i: int| 0 <= i < entries.len() ==> at_most_one_tally(#[trigger] entries[i]),
    ensures
        count_where(entries, Tally::Success) + count_where(entries, Tally::Blocked) + count_where(
            entries,
            Tally::CertMismatch,
        ) + count_where(entries, Tally::Error) <= entries.len(),
    decreases entries.len(),
{
    if entries.len() > 0 {
        let rest = entries.drop_last();
        assert forall|i: int| 0 <= i < rest.len() implies at_most_one_tally(#[trigger] rest[i]) by {
            assert(rest[i] == entries[i]);
        }
        lemma_tallies_within_total(rest);
        assert(at_most_one_tally(entries[entries.len() - 1]));
    }
}

/// The label of a result's summary line follows the report of the result:
/// blocked stays blocked, a mismatch is a success with mismatch, a success a
/// success, and another error another error.
pub proof fn lemma_entry_status_follows_result(
    domain: Seq<char>,
    ip: Ipv4Address,
    r: ProbeResult,
    e: ResultEntry,
)
    requires
        entry_for(domain, ip, Ok(r), e),
        r.is_classified(),
    ensures
        e.status_of() == (match r.status_of() {
            ResultStatus::Blocked => EntryStatus::Blocked,
            ResultStatus::CertMismatch => EntryStatus::SuccessCertMismatch,
            ResultStatus::OtherError => EntryStatus::OtherError,
            ResultStatus::Success => EntryStatus::Success,
        }),
{
}

/// Every (address, domain) pair is tested, at the position `i * domains + j`.
pub proof fn lemma_plan_covers_every_pair(ip_count: nat, domain_count: nat, i: nat, j: nat)
    requires
        i < ip_count,
        j < domain_count,
    ensures
        i * domain_count + j < ip_count * domain_count,
        planned_pair(domain_count, i * domain_count + j) == (i, j),
{
    lemma_fundamental_div_mod_converse((i * domain_count + j) as int, domain_count as int, i as int, j as int);
    lemma_mul_inequality((i + 1) as int, ip_count as int, domain_count as int);
    lemma_mul_is_distributive_add_other_way(domain_count as int, i as int, 1);
}

/// No pair is tested twice: different positions hold different pairs.
pub proof fn lemma_plan_tests_each_pair_once(domain_count: nat, k1: nat, k2: nat)
    requires
        domain_count > 0,
        planned_pair(domain_count, k1) == planned_pair(domain_count, k2),
    ensures
        k1 == k2,
{
    lemma_fundamental_div_mod(k1 as int, domain_count as int);
    lemma_fundamental_div_mod(k2 as int, domain_count as int);
}

/// Exactly four kinds of error count as the connection being torn down:
/// reset, aborted, refused and broken pipe.  Every other kind, a timeout
/// (`TimedOut`, or `WouldBlock` as a read timeout shows on Linux) among them,
/// does not.
pub proof fn lemma_reset_kinds_are_the_four(kind: IoErrorKind)
    ensures
        is_reset_kind(kind) <==> (kind == IoErrorKind::ConnectionReset || kind == IoErrorKind::ConnectionAborted
            || kind == IoErrorKind::ConnectionRefused || kind == IoErrorKind::BrokenPipe),
        kind == IoErrorKind::WouldBlock ==> !is_reset_kind(kind),
        kind == IoErrorKind::TimedOut ==> !is_reset_kind(kind),
        kind == IoErrorKind::InvalidData ==> !is_reset_kind(kind),
{
}

/// An error is a certificate failure exactly when it is an `InvalidData`
/// error that wraps an invalid-certificate TLS error; any other TLS source
/// (an alert, a malformed message, ...) or any other kind is not one.
pub proof fn lemma_certificate_failure_is_invalid_certificate(err: IoError)
    ensures
        is_certificate_failure(err) <==> (err.kind == IoErrorKind::InvalidData && err.tls_source == Some(
            TlsErrorKind::InvalidCertificate,
        )),
        err.tls_source != Some(TlsErrorKind::InvalidCertificate) ==> !is_certificate_failure(err),
        err.kind != IoErrorKind::InvalidData ==> !is_certificate_failure(err),
{
}

/// A failed handshake or read is a certificate mismatch exactly when the
/// error is `InvalidData` wrapping an invalid-certificate TLS error, and is
/// blocked exactly when the error is one of the four reset kinds; it keeps
/// the error and has read nothing.
pub proof fn lemma_failed_probe_classification(
    domain: Seq<char>,
    ip: Ipv4Address,
    err: IoError,
    r: ProbeResult,
)
    requires
        failed_result(domain, ip, err, r),
    ensures
        r.cert_mismatch == (err.kind == IoErrorKind::InvalidData && err.tls_source == Some(
            TlsErrorKind::InvalidCertificate,
        )),
        r.blocked == (err.kind == IoErrorKind::ConnectionReset || err.kind == IoErrorKind::ConnectionAborted
            || err.kind == IoErrorKind::ConnectionRefused || err.kind == IoErrorKind::BrokenPipe),
        !(r.blocked && r.cert_mismatch),
        r.error == Some(err),
        r.stream_size == 0,
        r.domain@ == domain,
        r.ip == ip,
{
}

/// Whatever error a probe failed with, its summary line is neither blocked,
/// nor a success, nor a mismatch, but an error, labelled as a failed probe
/// and counted only among the errors.
pub proof fn lemma_failed_probe_line(domain: Seq<char>, ip: Ipv4Address, err: ProbeError, e: ResultEntry)
    requires
        entry_for(domain, ip, Err(err), e),
    ensures
        !e.blocked,
        !e.success,
        !e.cert_mismatch,
        e.error,
        e.status_of() == EntryStatus::ProbeFailed,
        counts_towards(Tally::Error, e),
        !counts_towards(Tally::Blocked, e),
        !counts_towards(Tally::Success, e),
        !counts_towards(Tally::CertMismatch, e),
{
}

/// In each phase a probe waits for exactly the outcomes of the step it is
/// in: the connect's success or any failure; the handshake's success or any
/// failure; a read of at most `READ_BUFFER_SIZE` bytes or any read failure.
/// A finished probe waits for nothing.
pub proof fn lemma_session_awaits_its_phase(s: ProbeSession, err: IoError, n: usize)
    ensures
        s.phase == ProbePhase::Connecting ==> {
            &&& s.awaits(ProbeEvent::TcpConnected)
            &&& s.awaits(ProbeEvent::TcpFailed(err))
            &&& !s.awaits(ProbeEvent::HandshakeDone)
            &&& !s.awaits(ProbeEvent::HandshakeFailed(err))
            &&& !s.awaits(ProbeEvent::ResponseRead(n))
            &&& !s.awaits(ProbeEvent::ReadFailed(err))
        },
        s.phase == ProbePhase::Handshaking ==> {
            &&& s.awaits(ProbeEvent::HandshakeDone)
            &&& s.awaits(ProbeEvent::HandshakeFailed(err))
            &&& !s.awaits(ProbeEvent::TcpConnected)
            &&& !s.awaits(ProbeEvent::TcpFailed(err))
            &&& !s.awaits(ProbeEvent::ResponseRead(n))
            &&& !s.awaits(ProbeEvent::ReadFailed(err))
        },
        s.phase == ProbePhase::Reading ==> {
            &&& s.awaits(ProbeEvent::ResponseRead(n)) == (n <= READ_BUFFER_SIZE)
            &&& s.awaits(ProbeEvent::ReadFailed(err))
            &&& !s.awaits(ProbeEvent::TcpConnected)
            &&& !s.awaits(ProbeEvent::TcpFailed(err))
            &&& !s.awaits(ProbeEvent::HandshakeDone)
            &&& !s.awaits(ProbeEvent::HandshakeFailed(err))
        },
        s.phase == ProbePhase::Finished ==> {
            &&& !s.awaits(ProbeEvent::TcpConnected)
            &&& !s.awaits(ProbeEvent::TcpFailed(err))
            &&& !s.awaits(ProbeEvent::HandshakeDone)
            &&& !s.awaits(ProbeEvent::HandshakeFailed(err))
            &&& !s.awaits(ProbeEvent::ResponseRead(n))
            &&& !s.awaits(ProbeEvent::ReadFailed(err))
        },
{
}

} // verus!
