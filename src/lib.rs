//! Structured fields of X.509 certificates read from PEM text or from the
//! certificates of a PKCS#12 container: common names, distinguished names,
//! DNS subject alternative names, expiration and thumbprint.
pub mod command;
pub mod digest;
pub mod error;
pub mod pem;
pub mod pfx;
pub mod record;
pub mod x509;
