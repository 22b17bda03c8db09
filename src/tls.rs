use vstd::prelude::*;
use vstd::string::StringSliceAdditionalSpecFns;
use openssl::asn1::{Asn1Time, Asn1TimeRef};
use openssl::error::ErrorStack;
use openssl::ssl::{Ssl, SslContext, SslContextBuilder, SslMethod, SslVerifyMode};
use openssl::x509::X509;
use crate::error::ProbeError;
use crate::expiration::SslExpiration;

verus! {

#[verifier::external_type_specification]
#[verifier::external_body]
pub struct ExSsl(Ssl);

#[verifier::external_type_specification]
#[verifier::external_body]
pub struct ExSslContext(SslContext);

#[verifier::external_type_specification]
#[verifier::external_body]
pub struct ExSslContextBuilder(SslContextBuilder);

#[verifier::external_type_specification]
#[verifier::external_body]
pub struct ExX509(X509);

#[verifier::external_type_specification]
#[verifier::external_body]
pub struct ExAsn1Time(Asn1Time);

#[verifier::external_type_specification]
#[verifier::external_body]
pub struct ExAsn1TimeRef(Asn1TimeRef);

#[verifier::external_type_specification]
#[verifier::external_body]
pub struct ExErrorStack(ErrorStack);

/// Whether `host` can be sent as the server name: not empty, and without a
/// NUL byte, which a C string cannot carry.
pub open spec fn valid_host(host: Seq<u8>) -> bool {
    host.len() > 0 && !host.contains(0u8)
}

/// Relies on `SslContext::builder` with `SslMethod::tls()`: a builder for a
/// client or server context of any TLS version, or OpenSSL's error.
#[verifier::external_body]
fn tls_context_builder() -> (r: Result<SslContextBuilder, ErrorStack>) {
    SslContext::builder(SslMethod::tls())
}

/// Relies on `SslContextBuilder::set_verify` with an empty mode: the peer's
/// certificate is read but never checked against a trust store.
#[verifier::external_body]
fn disable_peer_verification(builder: &mut SslContextBuilder) {
    builder.set_verify(SslVerifyMode::empty())
}

/// Relies on `SslContextBuilder::build`: the finished context.
#[verifier::external_body]
fn build_context(builder: SslContextBuilder) -> (r: SslContext) {
    builder.build()
}

/// Relies on `Ssl::new`: a session on the given context, or OpenSSL's error.
#[verifier::external_body]
fn new_session(context: &SslContext) -> (r: Result<Ssl, ErrorStack>) {
    Ssl::new(context)
}

/// Relies on `SslRef::set_hostname`: sets the name sent for SNI. It panics on
/// a name with a NUL byte, which `requires` leaves out.
#[verifier::external_body]
fn set_server_name(session: &mut Ssl, host: &str) -> (r: Result<(), ErrorStack>)
    requires
        !host.spec_bytes().contains(0u8),
{
    session.set_hostname(host)
}

/// Relies on `Asn1Time::days_from_now` with zero days: the current time.
#[verifier::external_body]
fn current_time() -> (r: Result<Asn1Time, ErrorStack>) {
    Asn1Time::days_from_now(0)
}

/// Relies on `X509Ref::not_after`: the time after which the certificate is
/// no longer valid.
#[verifier::external_body]
fn not_after(cert: &X509) -> (r: &Asn1TimeRef) {
    cert.not_after()
}

/// Relies on `Asn1TimeRef::diff`: the distance from `from` to `to`, as whole
/// days and the seconds beyond them; `TimeDiff::secs` is documented to stay
/// under the number of seconds in a day.
#[verifier::external_body]
fn time_diff(from: &Asn1Time, to: &Asn1TimeRef) -> (r: Result<(i32, i32), ErrorStack>)
    ensures
        r matches Ok((days, secs)) ==> secs < 86400,
{
    from.diff(to).map(|d| (d.days, d.secs))
}

/// Relies on `ErrorStack`'s `Display`: a readable account of OpenSSL's errors.
#[verifier::external_body]
fn error_text(e: &ErrorStack) -> (r: String) {
    e.to_string()
}

/// Whether `host` can be sent as the server name.
pub fn is_valid_host(host: &str) -> (r: bool)
    ensures
        r == valid_host(host.spec_bytes()),
{
    let bytes = host.as_bytes();
    bytes.len() > 0 && !has_nul(bytes)
}

/// Whether `bytes` holds a NUL byte.
fn has_nul(bytes: &[u8]) -> (r: bool)
    ensures
        r == bytes@.contains(0u8),
{
    let mut i: usize = 0;
    while i < bytes.len()
        invariant
            0 <= i <= bytes@.len(),
            forall|j: int| 0 <= j < i ==> bytes@[j] != 0u8,
        decreases bytes@.len() - i,
    {
        if bytes[i] == 0u8 {
            assert(bytes@[i as int] == 0u8);
            return true;
        }
        i = i + 1;
    }
    false
}

/// A client session for `host`: its context reads whatever certificate the
/// server shows without checking trust, and `host` is sent for SNI.
///
/// Fails with `InvalidHost` exactly when `host` is empty or holds a NUL byte;
/// otherwise only OpenSSL's own failure, reported as `Tls`, stops it.
pub fn client_session(host: &str) -> (r: Result<Ssl, ProbeError>)
    ensures
        r matches Err(ProbeError::InvalidHost) <==> !valid_host(host.spec_bytes()),
        r is Err ==> (r matches Err(ProbeError::InvalidHost) || r matches Err(ProbeError::Tls { .. })),
{
    if !is_valid_host(host) {
        return Err(ProbeError::InvalidHost);
    }
    let mut builder = match tls_context_builder() {
        Ok(b) => b,
        Err(e) => return Err(ProbeError::Tls { cause: error_text(&e) }),
    };
    disable_peer_verification(&mut builder);
    let context = build_context(builder);
    let mut session = match new_session(&context) {
        Ok(s) => s,
        Err(e) => return Err(ProbeError::Tls { cause: error_text(&e) }),
    };
    match set_server_name(&mut session, host) {
        Ok(()) => Ok(session),
        Err(e) => Err(ProbeError::Tls { cause: error_text(&e) }),
    }
}

/// Time left until `cert` expires, measured from now.
///
/// OpenSSL measures the distance from now to the certificate's not-after
/// time, and [`SslExpiration::from_time_diff`] turns it into seconds. It fails
/// with `OutOfRange` where that total does not fit, and with `Tls` where
/// OpenSSL could not read a time.
pub fn expiration_of(cert: &X509) -> (r: Result<SslExpiration, ProbeError>)
    ensures
        r is Err ==> (r matches Err(ProbeError::OutOfRange) || r matches Err(ProbeError::Tls { .. })),
{
    let now = match current_time() {
        Ok(t) => t,
        Err(e) => return Err(ProbeError::Tls { cause: error_text(&e) }),
    };
    let (days, secs) = match time_diff(&now, not_after(cert)) {
        Ok(d) => d,
        Err(e) => return Err(ProbeError::Tls { cause: error_text(&e) }),
    };
    match SslExpiration::from_time_diff(days, secs) {
        Some(e) => Ok(e),
        None => Err(ProbeError::OutOfRange),
    }
}

} // verus!
