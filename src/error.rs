use vstd::prelude::*;

verus! {

/// Why a probe ended without a result.
#[derive(Debug, Clone, PartialEq, Eq)]
pub enum ProbeError {
    /// The host name is empty or holds a NUL byte.
    InvalidHost,
    /// The host name gave no address.
    Resolution { host: String },
    /// The connection could not be opened.
    Connect { host: String, cause: String },
    /// The connection was not opened within the timeout, or the timeout was zero.
    ConnectTimeout { host: String },
    /// The TLS handshake failed.
    Handshake { host: String, cause: String },
    /// The handshake succeeded but the server showed no certificate.
    CertificateMissing { host: String },
    /// OpenSSL could not set up the session or read a time.
    Tls { cause: String },
    /// The time left does not fit the seconds counter.
    OutOfRange,
}

} // verus!
