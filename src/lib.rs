//! Measures how long a server's TLS certificate stays valid.
//!
//! A probe resolves the server, opens a connection bounded by a timeout, drives a
//! TLS handshake with trust verification switched off and reads the leaf
//! certificate's not-after time. The signed distance from now to that time is an
//! [`SslExpiration`].
//!
//! The library decides; the caller performs the network work. [`Probe`] says
//! which stage comes next, the caller reports what happened as a
//! [`ProbeEvent`], and the certificate it finally receives is measured by
//! [`expiration_of`].

pub mod error;
pub mod expiration;
pub mod probe;
pub mod tls;

pub use error::ProbeError;
pub use expiration::{reported_days, SslExpiration};
pub use probe::{Probe, ProbeEvent, Stage};
pub use tls::{client_session, expiration_of};
