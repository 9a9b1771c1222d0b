use vstd::prelude::*;
use crate::error::{is_certificate_failure, is_reset_kind, IoError, IoErrorKind, ProbeError, TlsErrorKind};
use crate::text::{decimal, decimal_string};
use crate::utils::{is_certificate_error, is_connection_reset_error};

verus! {

/// The command line: the domains to try as SNI, the IP addresses to connect
/// to (as given, before parsing), the timeout in seconds and the port.
pub struct Cli {
    pub domains: Vec<String>,
    pub ips: Vec<String>,
    pub timeout: u64,
    pub port: u16,
}

/// An IPv4 address `a.b.c.d`, by its four octets in network order.
#[derive(Clone, Copy, Debug, PartialEq, Eq, Structural)]
pub struct Ipv4Address {
    pub a: u8,
    pub b: u8,
    pub c: u8,
    pub d: u8,
}

/// Dotted-decimal notation of an address, as `Display` writes it.
pub open spec fn ipv4_text(ip: Ipv4Address) -> Seq<char> {
    decimal(ip.a as nat) + "."@ + decimal(ip.b as nat) + "."@ + decimal(ip.c as nat) + "."@
        + decimal(ip.d as nat)
}

impl Ipv4Address {
    pub fn new(a: u8, b: u8, c: u8, d: u8) -> (ip: Ipv4Address)
        ensures
            ip == (Ipv4Address { a, b, c, d }),
    {
        Ipv4Address { a, b, c, d }
    }

    /// Dotted-decimal notation, such as `8.8.8.8`.
    pub fn to_text(&self) -> (s: String)
        ensures
            s@ == ipv4_text(*self),
    {
        let mut s = decimal_string(self.a as usize);
        s.append(".");
        let t = decimal_string(self.b as usize);
        s.append(t.as_str());
        s.append(".");
        let t = decimal_string(self.c as usize);
        s.append(t.as_str());
        s.append(".");
        let t = decimal_string(self.d as usize);
        s.append(t.as_str());
        s
    }
}

/// How the TLS handshake of one probe went.
#[derive(Debug)]
pub struct ProbeResult {
    pub domain: String,
    pub ip: Ipv4Address,
    /// The connection was torn down: the domain is likely on an SNI blocklist.
    pub blocked: bool,
    /// The handshake completed but the certificate did not match (not blocked).
    pub cert_mismatch: bool,
    /// The number of bytes read after the handshake.
    pub stream_size: usize,
    pub error: Option<IoError>,
}

/// How a probe result is reported.
#[derive(Clone, Copy, Debug, PartialEq, Eq, Structural)]
pub enum ResultStatus {
    Blocked,
    CertMismatch,
    OtherError,
    Success,
}

/// The result of a probe whose handshake ended with `err`: a certificate
/// failure is a mismatch (the handshake went through), and a reset that is
/// not a certificate failure is a block.
pub open spec fn failed_result(domain: Seq<char>, ip: Ipv4Address, err: IoError, r: ProbeResult) -> bool {
    &&& r.domain@ == domain
    &&& r.ip == ip
    &&& r.blocked == (!is_certificate_failure(err) && is_reset_kind(err.kind))
    &&& r.cert_mismatch == is_certificate_failure(err)
    &&& r.stream_size == 0
    &&& r.error == Some(err)
}

/// The result of a probe whose handshake went through and whose read gave
/// `size` bytes.
pub open spec fn completed_result(domain: Seq<char>, ip: Ipv4Address, size: usize, r: ProbeResult) -> bool {
    &&& r.domain@ == domain
    &&& r.ip == ip
    &&& !r.blocked
    &&& !r.cert_mismatch
    &&& r.stream_size == size
    &&& r.error is None
}

/// `Debug` of the optional error's kind, such as `Some(ConnectionReset)`.
pub open spec fn error_kind_debug(error: Option<IoError>) -> Seq<char> {
    match error {
        Some(e) => "Some("@ + e.kind.name_text() + ")"@,
        None => "None"@,
    }
}

impl ProbeResult {
    /// Whether the fields are those that classification gives: with no
    /// error, neither blocked nor mismatched; with an error, as
    /// `failed_result` says.
    pub open spec fn is_classified(self) -> bool {
        match self.error {
            None => !self.blocked && !self.cert_mismatch,
            Some(e) => failed_result(self.domain@, self.ip, e, self),
        }
    }

    pub open spec fn status_of(self) -> ResultStatus {
        if self.blocked {
            ResultStatus::Blocked
        } else if self.cert_mismatch {
            ResultStatus::CertMismatch
        } else if self.error is Some {
            ResultStatus::OtherError
        } else {
            ResultStatus::Success
        }
    }

    /// The one-line description that `Display` writes.
    pub open spec fn description(self) -> Seq<char> {
        let size = decimal(self.stream_size as nat);
        match self.status_of() {
            ResultStatus::Blocked => "🚫 "@ + self.domain@ + " ["@ + ipv4_text(self.ip) + "] 被墙 - "@
                + error_kind_debug(self.error),
            ResultStatus::CertMismatch => "✅ "@ + self.domain@ + " ["@ + ipv4_text(self.ip)
                + "] 连接成功（证书不匹配，读取 "@ + size + " 字节）"@,
            ResultStatus::OtherError => "⚠️ "@ + self.domain@ + " ["@ + ipv4_text(self.ip) + "] 其他错误 - "@
                + error_kind_debug(self.error) + "（读取 "@ + size + " 字节）"@,
            ResultStatus::Success => "✅ "@ + self.domain@ + " ["@ + ipv4_text(self.ip)
                + "] 连接成功（读取 "@ + size + " 字节）"@,
        }
    }

    /// Classifies a handshake (or the read after it) that failed with `err`.
    pub fn handshake_failed(domain: String, ip: Ipv4Address, err: IoError) -> (r: ProbeResult)
        ensures
            failed_result(domain@, ip, err, r),
            r.is_classified(),
            r.cert_mismatch == (err.kind == IoErrorKind::InvalidData && err.tls_source == Some(
                TlsErrorKind::InvalidCertificate,
            )),
            r.blocked == (err.kind == IoErrorKind::ConnectionReset || err.kind == IoErrorKind::ConnectionAborted
                || err.kind == IoErrorKind::ConnectionRefused || err.kind == IoErrorKind::BrokenPipe),
            r.error == Some(err),
            r.stream_size == 0,
    {
        let is_cert_error = is_certificate_error(&err);
        let is_reset = is_connection_reset_error(&err);
        ProbeResult {
            domain,
            ip,
            blocked: !is_cert_error && is_reset,
            cert_mismatch: is_cert_error,
            stream_size: 0,
            error: Some(err),
        }
    }

    /// The result of a handshake that went through, after reading `size` bytes.
    pub fn completed(domain: String, ip: Ipv4Address, size: usize) -> (r: ProbeResult)
        ensures
            completed_result(domain@, ip, size, r),
            r.is_classified(),
    {
        ProbeResult { domain, ip, blocked: false, cert_mismatch: false, stream_size: size, error: None }
    }

    /// Which of the four reports the result gets: blocked first, then a
    /// certificate mismatch, then another error, else success.
    pub fn status(&self) -> (s: ResultStatus)
        ensures
            s == self.status_of(),
    {
        if self.blocked {
            ResultStatus::Blocked
        } else if self.cert_mismatch {
            ResultStatus::CertMismatch
        } else if self.error.is_some() {
            ResultStatus::OtherError
        } else {
            ResultStatus::Success
        }
    }

    fn kind_debug(&self) -> (s: String)
        ensures
            s@ == error_kind_debug(self.error),
    {
        match &self.error {
            Some(e) => {
                let mut s = String::from_str("Some(");
                s.append(e.kind.name());
                s.append(")");
                s
            },
            None => String::from_str("None"),
        }
    }

    /// The one-line description of the result (what `Display` writes).
    pub fn to_text(&self) -> (s: String)
        ensures
            s@ == self.description(),
    {
        let ip = self.ip.to_text();
        let size = decimal_string(self.stream_size);
        match self.status() {
            ResultStatus::Blocked => {
                let mut s = String::from_str("🚫 ");
                s.append(self.domain.as_str());
                s.append(" [");
                s.append(ip.as_str());
                s.append("] 被墙 - ");
                let k = self.kind_debug();
                s.append(k.as_str());
                s
            },
            ResultStatus::CertMismatch => {
                let mut s = String::from_str("✅ ");
                s.append(self.domain.as_str());
                s.append(" [");
                s.append(ip.as_str());
                s.append("] 连接成功（证书不匹配，读取 ");
                s.append(size.as_str());
                s.append(" 字节）");
                s
            },
            ResultStatus::OtherError => {
                let mut s = String::from_str("⚠️ ");
                s.append(self.domain.as_str());
                s.append(" [");
                s.append(ip.as_str());
                s.append("] 其他错误 - ");
                let k = self.kind_debug();
                s.append(k.as_str());
                s.append("（读取 ");
                s.append(size.as_str());
                s.append(" 字节）");
                s
            },
            ResultStatus::Success => {
                let mut s = String::from_str("✅ ");
                s.append(self.domain.as_str());
                s.append(" [");
                s.append(ip.as_str());
                s.append("] 连接成功（读取 ");
                s.append(size.as_str());
                s.append(" 字节）");
                s
            },
        }
    }
}

/// One line of the final summary.
#[derive(Clone, Debug)]
pub struct ResultEntry {
    pub domain: String,
    pub ip: Ipv4Address,
    pub blocked: bool,
    pub success: bool,
    pub cert_mismatch: bool,
    pub error: bool,
}

/// How a summary line is reported.
#[derive(Clone, Copy, Debug, PartialEq, Eq, Structural)]
pub enum EntryStatus {
    Blocked,
    SuccessCertMismatch,
    ProbeFailed,
    Success,
    /// The handshake ended in another error (neither a block nor a mismatch).
    OtherError,
}

/// The summary line for a probe of `domain` at `ip` with the given outcome.
pub open spec fn entry_for(domain: Seq<char>, ip: Ipv4Address, outcome: Result<ProbeResult, ProbeError>, e: ResultEntry) -> bool {
    &&& e.domain@ == domain
    &&& e.ip == ip
    &&& match outcome {
        Ok(res) => {
            &&& e.blocked == res.blocked
            &&& e.success == (!res.blocked && res.error is None)
            &&& e.cert_mismatch == res.cert_mismatch
            &&& !e.error
        },
        Err(_) => !e.blocked && !e.success && !e.cert_mismatch && e.error,
    }
}

impl ResultEntry {
    pub open spec fn status_of(self) -> EntryStatus {
        if self.blocked {
            EntryStatus::Blocked
        } else if self.cert_mismatch {
            EntryStatus::SuccessCertMismatch
        } else if self.error {
            EntryStatus::ProbeFailed
        } else if self.success {
            EntryStatus::Success
        } else {
            EntryStatus::OtherError
        }
    }

    /// The summary line for a probe of `domain` at `ip`: a result keeps its
    /// blocked and mismatch flags and succeeds when it is neither blocked nor
    /// erroneous; a probe that failed outright is an error line.
    pub fn from_probe(domain: &String, ip: Ipv4Address, outcome: &Result<ProbeResult, ProbeError>) -> (e: ResultEntry)
        ensures
            entry_for(domain@, ip, *outcome, e),
            outcome is Err ==> !e.blocked && !e.success && !e.cert_mismatch && e.error,
            outcome is Err ==> e.status_of() == EntryStatus::ProbeFailed,
            outcome matches Ok(res) ==> e.blocked == res.blocked && e.cert_mismatch == res.cert_mismatch
                && e.success == (!res.blocked && res.error is None) && !e.error,
    {
        match outcome {
            Ok(res) => ResultEntry {
                domain: domain.clone(),
                ip,
                blocked: res.blocked,
                success: !res.blocked && res.error.is_none(),
                cert_mismatch: res.cert_mismatch,
                error: false,
            },
            Err(_) => ResultEntry {
                domain: domain.clone(),
                ip,
                blocked: false,
                success: false,
                cert_mismatch: false,
                error: true,
            },
        }
    }

    /// Which label the summary line gets: blocked first, then a certificate
    /// mismatch, then a failed probe, then a success; a line with none of
    /// these is another error.
    pub fn status(&self) -> (s: EntryStatus)
        ensures
            s == self.status_of(),
    {
        if self.blocked {
            EntryStatus::Blocked
        } else if self.cert_mismatch {
            EntryStatus::SuccessCertMismatch
        } else if self.error {
            EntryStatus::ProbeFailed
        } else if self.success {
            EntryStatus::Success
        } else {
            EntryStatus::OtherError
        }
    }
}

} // verus!
