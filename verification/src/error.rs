use vstd::prelude::*;
use rustls::pki_types::InvalidDnsNameError;
use crate::tls::{invalid_dns_name_text, TlsError};

verus! {

/// The category of an I/O error, with the same variants (and `Debug` names)
/// as the standard library's `std::io::ErrorKind`; kinds that have no variant
/// here are reported as `Uncategorized`.
#[derive(Clone, Copy, Debug, PartialEq, Eq, Structural)]
pub enum IoErrorKind {
    NotFound,
    PermissionDenied,
    ConnectionRefused,
    ConnectionReset,
    HostUnreachable,
    NetworkUnreachable,
    ConnectionAborted,
    NotConnected,
    AddrInUse,
    AddrNotAvailable,
    NetworkDown,
    BrokenPipe,
    AlreadyExists,
    WouldBlock,
    NotADirectory,
    IsADirectory,
    DirectoryNotEmpty,
    ReadOnlyFilesystem,
    StaleNetworkFileHandle,
    InvalidInput,
    InvalidData,
    TimedOut,
    WriteZero,
    StorageFull,
    NotSeekable,
    QuotaExceeded,
    FileTooLarge,
    ResourceBusy,
    ExecutableFileBusy,
    Deadlock,
    CrossesDevices,
    TooManyLinks,
    InvalidFilename,
    ArgumentListTooLong,
    Interrupted,
    Unsupported,
    UnexpectedEof,
    OutOfMemory,
    Other,
    Uncategorized,
}

/// The variant of a TLS protocol error (the top-level variants of
/// `rustls::Error`); variants added later are reported as `Unlisted`.
#[derive(Clone, Copy, Debug, PartialEq, Eq, Structural)]
pub enum TlsErrorKind {
    InappropriateMessage,
    InappropriateHandshakeMessage,
    InvalidEncryptedClientHello,
    InvalidMessage,
    NoCertificatesPresented,
    UnsupportedNameType,
    DecryptError,
    EncryptError,
    PeerIncompatible,
    PeerMisbehaved,
    AlertReceived,
    InvalidCertificate,
    InvalidCertRevocationList,
    General,
    FailedToGetCurrentTime,
    FailedToGetRandomBytes,
    HandshakeNotComplete,
    PeerSentOversizedRecord,
    NoApplicationProtocol,
    BadMaxFragmentSize,
    InconsistentKeys,
    Other,
    Unlisted,
}

impl IoErrorKind {
    /// The variant's name, as `Debug` writes it.
    pub open spec fn name_text(self) -> Seq<char> {
        match self {
            IoErrorKind::NotFound => "NotFound"@,
            IoErrorKind::PermissionDenied => "PermissionDenied"@,
            IoErrorKind::ConnectionRefused => "ConnectionRefused"@,
            IoErrorKind::ConnectionReset => "ConnectionReset"@,
            IoErrorKind::HostUnreachable => "HostUnreachable"@,
            IoErrorKind::NetworkUnreachable => "NetworkUnreachable"@,
            IoErrorKind::ConnectionAborted => "ConnectionAborted"@,
            IoErrorKind::NotConnected => "NotConnected"@,
            IoErrorKind::AddrInUse => "AddrInUse"@,
            IoErrorKind::AddrNotAvailable => "AddrNotAvailable"@,
            IoErrorKind::NetworkDown => "NetworkDown"@,
            IoErrorKind::BrokenPipe => "BrokenPipe"@,
            IoErrorKind::AlreadyExists => "AlreadyExists"@,
            IoErrorKind::WouldBlock => "WouldBlock"@,
            IoErrorKind::NotADirectory => "NotADirectory"@,
            IoErrorKind::IsADirectory => "IsADirectory"@,
            IoErrorKind::DirectoryNotEmpty => "DirectoryNotEmpty"@,
            IoErrorKind::ReadOnlyFilesystem => "ReadOnlyFilesystem"@,
            IoErrorKind::StaleNetworkFileHandle => "StaleNetworkFileHandle"@,
            IoErrorKind::InvalidInput => "InvalidInput"@,
            IoErrorKind::InvalidData => "InvalidData"@,
            IoErrorKind::TimedOut => "TimedOut"@,
            IoErrorKind::WriteZero => "WriteZero"@,
            IoErrorKind::StorageFull => "StorageFull"@,
            IoErrorKind::NotSeekable => "NotSeekable"@,
            IoErrorKind::QuotaExceeded => "QuotaExceeded"@,
            IoErrorKind::FileTooLarge => "FileTooLarge"@,
            IoErrorKind::ResourceBusy => "ResourceBusy"@,
            IoErrorKind::ExecutableFileBusy => "ExecutableFileBusy"@,
            IoErrorKind::Deadlock => "Deadlock"@,
            IoErrorKind::CrossesDevices => "CrossesDevices"@,
            IoErrorKind::TooManyLinks => "TooManyLinks"@,
            IoErrorKind::InvalidFilename => "InvalidFilename"@,
            IoErrorKind::ArgumentListTooLong => "ArgumentListTooLong"@,
            IoErrorKind::Interrupted => "Interrupted"@,
            IoErrorKind::Unsupported => "Unsupported"@,
            IoErrorKind::UnexpectedEof => "UnexpectedEof"@,
            IoErrorKind::OutOfMemory => "OutOfMemory"@,
            IoErrorKind::Other => "Other"@,
            IoErrorKind::Uncategorized => "Uncategorized"@,
        }
    }

    /// The variant's name, as `Debug` writes it.
    pub fn name(&self) -> (s: &'static str)
        ensures
            s@ == self.name_text(),
    {
        match self {
            IoErrorKind::NotFound => "NotFound",
            IoErrorKind::PermissionDenied => "PermissionDenied",
            IoErrorKind::ConnectionRefused => "ConnectionRefused",
            IoErrorKind::ConnectionReset => "ConnectionReset",
            IoErrorKind::HostUnreachable => "HostUnreachable",
            IoErrorKind::NetworkUnreachable => "NetworkUnreachable",
            IoErrorKind::ConnectionAborted => "ConnectionAborted",
            IoErrorKind::NotConnected => "NotConnected",
            IoErrorKind::AddrInUse => "AddrInUse",
            IoErrorKind::AddrNotAvailable => "AddrNotAvailable",
            IoErrorKind::NetworkDown => "NetworkDown",
            IoErrorKind::BrokenPipe => "BrokenPipe",
            IoErrorKind::AlreadyExists => "AlreadyExists",
            IoErrorKind::WouldBlock => "WouldBlock",
            IoErrorKind::NotADirectory => "NotADirectory",
            IoErrorKind::IsADirectory => "IsADirectory",
            IoErrorKind::DirectoryNotEmpty => "DirectoryNotEmpty",
            IoErrorKind::ReadOnlyFilesystem => "ReadOnlyFilesystem",
            IoErrorKind::StaleNetworkFileHandle => "StaleNetworkFileHandle",
            IoErrorKind::InvalidInput => "InvalidInput",
            IoErrorKind::InvalidData => "InvalidData",
            IoErrorKind::TimedOut => "TimedOut",
            IoErrorKind::WriteZero => "WriteZero",
            IoErrorKind::StorageFull => "StorageFull",
            IoErrorKind::NotSeekable => "NotSeekable",
            IoErrorKind::QuotaExceeded => "QuotaExceeded",
            IoErrorKind::FileTooLarge => "FileTooLarge",
            IoErrorKind::ResourceBusy => "ResourceBusy",
            IoErrorKind::ExecutableFileBusy => "ExecutableFileBusy",
            IoErrorKind::Deadlock => "Deadlock",
            IoErrorKind::CrossesDevices => "CrossesDevices",
            IoErrorKind::TooManyLinks => "TooManyLinks",
            IoErrorKind::InvalidFilename => "InvalidFilename",
            IoErrorKind::ArgumentListTooLong => "ArgumentListTooLong",
            IoErrorKind::Interrupted => "Interrupted",
            IoErrorKind::Unsupported => "Unsupported",
            IoErrorKind::UnexpectedEof => "UnexpectedEof",
            IoErrorKind::OutOfMemory => "OutOfMemory",
            IoErrorKind::Other => "Other",
            IoErrorKind::Uncategorized => "Uncategorized",
        }
    }
}

/// An I/O error as the probe sees it: its kind, its message, and, where the
/// error wraps a TLS protocol error, the variant of that error.
#[derive(Debug)]
pub struct IoError {
    pub kind: IoErrorKind,
    pub message: String,
    pub tls_source: Option<TlsErrorKind>,
}

/// The kinds that mean the connection was torn down by the peer or a middlebox.
pub open spec fn is_reset_kind(kind: IoErrorKind) -> bool {
    ||| kind == IoErrorKind::ConnectionReset
    ||| kind == IoErrorKind::ConnectionAborted
    ||| kind == IoErrorKind::ConnectionRefused
    ||| kind == IoErrorKind::BrokenPipe
}

/// An error that carries a TLS certificate validation failure.
pub open spec fn is_certificate_failure(err: IoError) -> bool {
    err.kind == IoErrorKind::InvalidData && err.tls_source == Some(TlsErrorKind::InvalidCertificate)
}

/// Why a probe could not be carried out at all.
#[derive(Debug)]
pub enum ProbeError {
    /// The TCP connection could not be made.
    TCPConnect(IoError),
    /// The domain is not a valid server name.
    InvalidDomain(InvalidDnsNameError),
    /// The TLS client could not be set up.
    RustlsError(TlsError),
}

impl ProbeError {
    /// The message (what `Display` writes): a prefix that names the stage
    /// that failed, then the underlying error's own message.
    pub fn to_text(&self) -> (s: String)
        ensures
            self matches ProbeError::TCPConnect(e) ==> s@ == "TCP 连接错误: "@ + e.message@,
            self is InvalidDomain ==> s@ == "无效域名: "@ + "invalid dns name"@,
            self matches ProbeError::RustlsError(e) ==> s@ == "TLS 错误: "@ + e.message@,
    {
        match self {
            ProbeError::TCPConnect(e) => {
                let mut s = String::from_str("TCP 连接错误: ");
                s.append(e.message.as_str());
                s
            },
            ProbeError::InvalidDomain(e) => {
                let mut s = String::from_str("无效域名: ");
                let t = invalid_dns_name_text(e);
                s.append(t.as_str());
                s
            },
            ProbeError::RustlsError(e) => {
                let mut s = String::from_str("TLS 错误: ");
                s.append(e.message.as_str());
                s
            },
        }
    }
}

impl From<IoError> for ProbeError {
    fn from(err: IoError) -> (r: ProbeError) {
        ProbeError::TCPConnect(err)
    }
}

impl vstd::std_specs::convert::FromSpecImpl<IoError> for ProbeError {
    open spec fn obeys_from_spec() -> bool {
        true
    }

    open spec fn from_spec(err: IoError) -> ProbeError {
        ProbeError::TCPConnect(err)
    }
}

impl From<InvalidDnsNameError> for ProbeError {
    fn from(err: InvalidDnsNameError) -> (r: ProbeError) {
        ProbeError::InvalidDomain(err)
    }
}

impl vstd::std_specs::convert::FromSpecImpl<InvalidDnsNameError> for ProbeError {
    open spec fn obeys_from_spec() -> bool {
        true
    }

    open spec fn from_spec(err: InvalidDnsNameError) -> ProbeError {
        ProbeError::InvalidDomain(err)
    }
}

impl From<TlsError> for ProbeError {
    fn from(err: TlsError) -> (r: ProbeError) {
        ProbeError::RustlsError(err)
    }
}

impl vstd::std_specs::convert::FromSpecImpl<TlsError> for ProbeError {
    open spec fn obeys_from_spec() -> bool {
        true
    }

    open spec fn from_spec(err: TlsError) -> ProbeError {
        ProbeError::RustlsError(err)
    }
}

} // verus!
