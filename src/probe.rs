use vstd::prelude::*;
use vstd::string::StringSliceAdditionalSpecFns;
use openssl::x509::X509;
use crate::error::ProbeError;
use crate::expiration::SslExpiration;
use crate::tls::{expiration_of, is_valid_host, valid_host};

verus! {

/// Where a probe stands. It moves forward one stage per event and ends in
/// `Done` or `Failed`, which no later event leaves.
#[derive(Debug, PartialEq, Eq)]
pub enum Stage {
    /// The caller resolves the host's addresses.
    Resolving,
    /// The caller connects to the first address within the timeout.
    Connecting,
    /// The caller drives the TLS handshake over the connection.
    Handshaking,
    /// The caller hands over the peer's leaf certificate.
    ExtractingCertificate,
    /// The probe produced its result.
    Done(SslExpiration),
    /// The probe failed.
    Failed(ProbeError),
}

/// What the caller observed while carrying out the current stage.
#[derive(Debug, Clone, PartialEq, Eq)]
pub enum ProbeEvent {
    /// Resolution gave this many addresses.
    Resolved { addresses: usize },
    /// The connection to the first address is open.
    Connected,
    /// The connection could not be opened; `timed_out` tells whether the
    /// timeout ran out.
    ConnectFailed { timed_out: bool, cause: String },
    /// The handshake completed.
    HandshakeSucceeded,
    /// The handshake failed.
    HandshakeFailed { cause: String },
}

/// Whether `stage` is final.
pub open spec fn is_final(stage: Stage) -> bool {
    stage is Done || stage is Failed
}

/// The stage that follows `stage` on `event`, for a probe of `host`. An event
/// that does not belong to the current stage leaves it unchanged.
pub open spec fn next_stage(host: String, stage: Stage, event: ProbeEvent) -> Stage {
    match (stage, event) {
        (Stage::Resolving, ProbeEvent::Resolved { addresses }) => {
            if addresses == 0 {
                Stage::Failed(ProbeError::Resolution { host })
            } else {
                Stage::Connecting
            }
        },
        (Stage::Connecting, ProbeEvent::Connected) => Stage::Handshaking,
        (Stage::Connecting, ProbeEvent::ConnectFailed { timed_out, cause }) => {
            if timed_out {
                Stage::Failed(ProbeError::ConnectTimeout { host })
            } else {
                Stage::Failed(ProbeError::Connect { host, cause })
            }
        },
        (Stage::Handshaking, ProbeEvent::HandshakeSucceeded) => Stage::ExtractingCertificate,
        (Stage::Handshaking, ProbeEvent::HandshakeFailed { cause }) => {
            Stage::Failed(ProbeError::Handshake { host, cause })
        },
        (s, _) => s,
    }
}

/// A final stage stays as it is whatever the caller reports next, so a probe
/// that failed, for instance at once on a zero timeout, never turns into a
/// result.
pub proof fn lemma_final_stage_kept(host: String, stage: Stage, event: ProbeEvent)
    requires
        is_final(stage),
    ensures
        next_stage(host, stage, event) == stage,
{
}

/// A host that resolves to no address fails the probe with `Resolution`,
/// naming that host, and the probe goes no further.
pub proof fn lemma_unresolvable_fails(host: String, event: ProbeEvent)
    ensures
        next_stage(host, Stage::Resolving, ProbeEvent::Resolved { addresses: 0 })
            == Stage::Failed(ProbeError::Resolution { host }),
        next_stage(host, Stage::Failed(ProbeError::Resolution { host }), event)
            == Stage::Failed(ProbeError::Resolution { host }),
{
}

/// One probe of one host, from resolution to the time left on its certificate.
pub struct Probe {
    host: String,
    timeout_secs: u64,
    stage: Stage,
}

impl Probe {
    /// The host being probed.
    pub closed spec fn spec_host(&self) -> String {
        self.host
    }

    /// The timeout for connecting, reading and writing, in seconds.
    pub closed spec fn spec_timeout_secs(&self) -> u64 {
        self.timeout_secs
    }

    /// The current stage.
    pub closed spec fn spec_stage(&self) -> Stage {
        self.stage
    }

    /// Starts a probe of `host` with a timeout of `timeout_secs` seconds.
    ///
    /// It fails at once with `InvalidHost` where `host` is empty or holds a NUL
    /// byte, and with `ConnectTimeout` where the timeout is zero, since no
    /// connection can be opened in no time; otherwise it starts by resolving.
    pub fn new(host: &str, timeout_secs: u64) -> (r: Probe)
        ensures
            r.spec_host()@ == host@,
            r.spec_timeout_secs() == timeout_secs,
            !valid_host(host.spec_bytes()) ==> r.spec_stage() == Stage::Failed(ProbeError::InvalidHost),
            valid_host(host.spec_bytes()) && timeout_secs == 0 ==> r.spec_stage() == Stage::Failed(
                ProbeError::ConnectTimeout { host: r.spec_host() },
            ),
            valid_host(host.spec_bytes()) && timeout_secs > 0 ==> r.spec_stage() == Stage::Resolving,
    {
        let owned = host.to_owned();
        let valid = is_valid_host(host);
        let stage = if !valid {
            Stage::Failed(ProbeError::InvalidHost)
        } else if timeout_secs == 0 {
            Stage::Failed(ProbeError::ConnectTimeout { host: owned.clone() })
        } else {
            Stage::Resolving
        };
        Probe { host: owned, timeout_secs, stage }
    }

    /// The host being probed.
    pub fn host(&self) -> (r: &str)
        ensures
            r@ == self.spec_host()@,
    {
        self.host.as_str()
    }

    /// The timeout for connecting, reading and writing, in seconds.
    pub fn timeout_secs(&self) -> (r: u64)
        ensures
            r == self.spec_timeout_secs(),
    {
        self.timeout_secs
    }

    /// The current stage.
    pub fn stage(&self) -> (r: &Stage)
        ensures
            *r == self.spec_stage(),
    {
        &self.stage
    }

    /// Moves the probe on by what the caller observed.
    pub fn step(&mut self, event: ProbeEvent)
        ensures
            final(self).spec_host() == old(self).spec_host(),
            final(self).spec_timeout_secs() == old(self).spec_timeout_secs(),
            final(self).spec_stage() == next_stage(old(self).spec_host(), old(self).spec_stage(), event),
    {
        let next = match (&self.stage, event) {
            (Stage::Resolving, ProbeEvent::Resolved { addresses }) => {
                if addresses == 0 {
                    Some(Stage::Failed(ProbeError::Resolution { host: self.host.clone() }))
                } else {
                    Some(Stage::Connecting)
                }
            },
            (Stage::Connecting, ProbeEvent::Connected) => Some(Stage::Handshaking),
            (Stage::Connecting, ProbeEvent::ConnectFailed { timed_out, cause }) => {
                if timed_out {
                    Some(Stage::Failed(ProbeError::ConnectTimeout { host: self.host.clone() }))
                } else {
                    Some(Stage::Failed(ProbeError::Connect { host: self.host.clone(), cause }))
                }
            },
            (Stage::Handshaking, ProbeEvent::HandshakeSucceeded) => Some(Stage::ExtractingCertificate),
            (Stage::Handshaking, ProbeEvent::HandshakeFailed { cause }) => {
                Some(Stage::Failed(ProbeError::Handshake { host: self.host.clone(), cause }))
            },
            _ => None,
        };
        if let Some(s) = next {
            self.stage = s;
        }
    }

    /// Hands over the peer's leaf certificate, if the server showed one, and
    /// computes the time left on it.
    ///
    /// Outside the certificate stage nothing changes. Without a certificate the
    /// probe fails with `CertificateMissing`; with one it is done, unless the
    /// time left does not fit (`OutOfRange`) or OpenSSL cannot read it (`Tls`).
    pub fn certificate(&mut self, cert: Option<X509>)
        ensures
            final(self).spec_host() == old(self).spec_host(),
            final(self).spec_timeout_secs() == old(self).spec_timeout_secs(),
            !(old(self).spec_stage() is ExtractingCertificate) ==> final(self).spec_stage() == old(self).spec_stage(),
            old(self).spec_stage() is ExtractingCertificate && cert is None ==> final(self).spec_stage()
                == Stage::Failed(ProbeError::CertificateMissing { host: old(self).spec_host() }),
            old(self).spec_stage() is ExtractingCertificate && cert is Some ==> {
                ||| final(self).spec_stage() is Done
                ||| final(self).spec_stage() matches Stage::Failed(ProbeError::OutOfRange)
                ||| final(self).spec_stage() matches Stage::Failed(ProbeError::Tls { .. })
            },
    {
        if !matches!(self.stage, Stage::ExtractingCertificate) {
            return;
        }
        match cert {
            None => {
                self.stage = Stage::Failed(ProbeError::CertificateMissing { host: self.host.clone() });
            },
            Some(c) => {
                self.stage = match expiration_of(&c) {
                    Ok(e) => Stage::Done(e),
                    Err(e) => Stage::Failed(e),
                };
            },
        }
    }

    /// The probe's result once it reached a final stage, `None` before.
    pub fn into_result(self) -> (r: Option<Result<SslExpiration, ProbeError>>)
        ensures
            r is None <==> !is_final(self.spec_stage()),
            self.spec_stage() matches Stage::Done(e) ==> r == Some(Ok::<SslExpiration, ProbeError>(e)),
            self.spec_stage() matches Stage::Failed(e) ==> r == Some(Err::<SslExpiration, ProbeError>(e)),
    {
        match self.stage {
            Stage::Done(e) => Some(Ok(e)),
            Stage::Failed(e) => Some(Err(e)),
            _ => None,
        }
    }
}

} // verus!
