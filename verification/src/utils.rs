use vstd::prelude::*;
use vstd::arithmetic::div_mod::lemma_fundamental_div_mod_converse;
use vstd::arithmetic::mul::lemma_mul_is_distributive_add_other_way;
use crate::error::{is_certificate_failure, is_reset_kind, IoError, IoErrorKind, TlsErrorKind};
use crate::types::ResultEntry;

verus! {

/// Whether the error means that the connection was reset, aborted, refused or
/// broken: the mark of a name on an SNI blocklist.
pub fn is_connection_reset_error(err: &IoError) -> (r: bool)
    ensures
        r == is_reset_kind(err.kind),
        r == (err.kind == IoErrorKind::ConnectionReset || err.kind == IoErrorKind::ConnectionAborted
            || err.kind == IoErrorKind::ConnectionRefused || err.kind == IoErrorKind::BrokenPipe),
{
    match err.kind {
        IoErrorKind::ConnectionReset
        | IoErrorKind::ConnectionAborted
        | IoErrorKind::ConnectionRefused
        | IoErrorKind::BrokenPipe => true,
        _ => false,
    }
}

/// Whether the error is a TLS certificate validation failure: an
/// `InvalidData` error that wraps an invalid-certificate TLS error.  Such an
/// error means that the handshake itself went through.
pub fn is_certificate_error(err: &IoError) -> (r: bool)
    ensures
        r == is_certificate_failure(*err),
        r == (err.kind == IoErrorKind::InvalidData && err.tls_source == Some(TlsErrorKind::InvalidCertificate)),
{
    match err.kind {
        IoErrorKind::InvalidData => {},
        _ => return false,
    }
    match err.tls_source {
        Some(TlsErrorKind::InvalidCertificate) => true,
        _ => false,
    }
}

/// The four tallies of the final summary.
#[derive(Clone, Copy, Debug, PartialEq, Eq, Structural)]
pub enum Tally {
    /// Succeeded without a certificate mismatch.
    Success,
    Blocked,
    CertMismatch,
    /// The probe itself failed.
    Error,
}

/// Whether a summary line counts towards a tally.
pub open spec fn counts_towards(tally: Tally, e: ResultEntry) -> bool {
    match tally {
        Tally::Success => e.success && !e.cert_mismatch,
        Tally::Blocked => e.blocked,
        Tally::CertMismatch => e.cert_mismatch,
        Tally::Error => e.error,
    }
}

/// How many of `entries` count towards `tally`.
pub open spec fn count_where(entries: Seq<ResultEntry>, tally: Tally) -> nat
    decreases entries.len(),
{
    if entries.len() == 0 {
        0
    } else {
        count_where(entries.drop_last(), tally) + if counts_towards(tally, entries.last()) {
            1nat
        } else {
            0nat
        }
    }
}

/// The totals of the final summary.
#[derive(Clone, Copy, Debug, PartialEq, Eq, Structural)]
pub struct Summary {
    pub total: usize,
    pub success: usize,
    pub blocked: usize,
    pub cert_mismatch: usize,
    pub errors: usize,
}

/// The summary of `entries`: all of them, the successes without a
/// certificate mismatch, the blocked ones, the certificate mismatches and
/// the failed probes.
pub open spec fn summarizes(s: Summary, entries: Seq<ResultEntry>) -> bool {
    &&& s.total == entries.len()
    &&& s.success == count_where(entries, Tally::Success)
    &&& s.blocked == count_where(entries, Tally::Blocked)
    &&& s.cert_mismatch == count_where(entries, Tally::CertMismatch)
    &&& s.errors == count_where(entries, Tally::Error)
}

proof fn lemma_count_step(entries: Seq<ResultEntry>, i: int, tally: Tally)
    requires
        0 <= i < entries.len(),
    ensures
        count_where(entries.take(i + 1), tally) == count_where(entries.take(i), tally) + if counts_towards(
            tally,
            entries[i],
        ) {
            1nat
        } else {
            0nat
        },
{
    assert(entries.take(i + 1).drop_last() =~= entries.take(i));
}

proof fn lemma_count_bounded(entries: Seq<ResultEntry>, tally: Tally)
    ensures
        count_where(entries, tally) <= entries.len(),
    decreases entries.len(),
{
    if entries.len() > 0 {
        lemma_count_bounded(entries.drop_last(), tally);
    }
}

impl Summary {
    /// Counts the summary lines.
    pub fn of(entries: &Vec<ResultEntry>) -> (s: Summary)
        ensures
            summarizes(s, entries@),
    {
        let mut s = Summary { total: entries.len(), success: 0, blocked: 0, cert_mismatch: 0, errors: 0 };
        let mut i: usize = 0;
        while i < entries.len()
            invariant
                i <= entries.len(),
                s.total == entries.len(),
                s.success == count_where(entries@.take(i as int), Tally::Success),
                s.blocked == count_where(entries@.take(i as int), Tally::Blocked),
                s.cert_mismatch == count_where(entries@.take(i as int), Tally::CertMismatch),
                s.errors == count_where(entries@.take(i as int), Tally::Error),
            decreases entries.len() - i,
        {
            proof {
                lemma_count_step(entries@, i as int, Tally::Success);
                lemma_count_step(entries@, i as int, Tally::Blocked);
                lemma_count_step(entries@, i as int, Tally::CertMismatch);
                lemma_count_step(entries@, i as int, Tally::Error);
                lemma_count_bounded(entries@.take(i as int), Tally::Success);
                lemma_count_bounded(entries@.take(i as int), Tally::Blocked);
                lemma_count_bounded(entries@.take(i as int), Tally::CertMismatch);
                lemma_count_bounded(entries@.take(i as int), Tally::Error);
            }
            let e = &entries[i];
            if e.success && !e.cert_mismatch {
                s.success = s.success + 1;
            }
            if e.blocked {
                s.blocked = s.blocked + 1;
            }
            if e.cert_mismatch {
                s.cert_mismatch = s.cert_mismatch + 1;
            }
            if e.error {
                s.errors = s.errors + 1;
            }
            i = i + 1;
        }
        assert(entries@.take(entries.len() as int) =~= entries@);
        s
    }

    /// Whether any probe looked blocked; the summary ends with a warning
    /// then, and with an all-clear otherwise.
    pub fn found_blocking(&self) -> (r: bool)
        ensures
            r == (self.blocked > 0),
    {
        self.blocked > 0
    }
}

/// The `k`-th test of the run: every domain on the first address, then
/// every domain on the next, and so on; as (address index, domain index).
pub open spec fn planned_pair(domain_count: nat, k: nat) -> (nat, nat) {
    (k / domain_count, k % domain_count)
}

/// The order in which the probes run: for each address in turn, each domain
/// in turn, as (address index, domain index) pairs.
pub fn probe_plan(ip_count: usize, domain_count: usize) -> (plan: Vec<(usize, usize)>)
    requires
        ip_count * domain_count <= usize::MAX,
    ensures
        plan@.len() == ip_count * domain_count,
        forall|k: int|
            0 <= k < plan@.len() ==> (#[trigger] plan@[k]).0 as nat == planned_pair(domain_count as nat, k as nat).0
                && plan@[k].1 as nat == planned_pair(domain_count as nat, k as nat).1,
{
    let mut plan: Vec<(usize, usize)> = Vec::new();
    let mut i: usize = 0;
    while i < ip_count
        invariant
            i <= ip_count,
            ip_count * domain_count <= usize::MAX,
            plan@.len() == i * domain_count,
            forall|k: int|
                0 <= k < plan@.len() ==> (#[trigger] plan@[k]).0 as nat == planned_pair(domain_count as nat, k as nat).0
                    && plan@[k].1 as nat == planned_pair(domain_count as nat, k as nat).1,
        decreases ip_count - i,
    {
        let mut j: usize = 0;
        while j < domain_count
            invariant
                i < ip_count,
                j <= domain_count,
                ip_count * domain_count <= usize::MAX,
                plan@.len() == i * domain_count + j,
                forall|k: int|
                    0 <= k < plan@.len() ==> (#[trigger] plan@[k]).0 as nat == planned_pair(domain_count as nat, k as nat).0
                        && plan@[k].1 as nat == planned_pair(domain_count as nat, k as nat).1,
            decreases domain_count - j,
        {
            proof {
                lemma_fundamental_div_mod_converse(
                    (i * domain_count + j) as int,
                    domain_count as int,
                    i as int,
                    j as int,
                );
            }
            plan.push((i, j));
            j = j + 1;
        }
        proof {
            lemma_mul_is_distributive_add_other_way(domain_count as int, i as int, 1);
        }
        i = i + 1;
    }
    plan
}

} // verus!
