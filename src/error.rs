//! The closed set of failures of an extraction, each with its underlying cause.
use vstd::prelude::*;

verus! {

#[verifier::external_type_specification]
#[verifier::external_body]
pub struct ExPemError(x509_parser::error::PEMError);

#[verifier::external_type_specification]
#[verifier::external_body]
pub struct ExX509Error(x509_parser::error::X509Error);

#[verifier::external_type_specification]
#[verifier::external_body]
#[verifier::reject_recursive_types(E)]
pub struct ExNomErr<E>(x509_parser::nom::Err<E>);

#[verifier::external_type_specification]
#[verifier::external_body]
pub struct ExUtf8Error(core::str::Utf8Error);

#[verifier::external_type_specification]
#[verifier::external_body]
pub struct ExIoError(std::io::Error);

#[verifier::external_type_specification]
#[verifier::external_body]
pub struct ExShellError(nu_protocol::ShellError);

/// Why an extraction failed. Every failure aborts the whole call.
#[derive(Debug)]
pub enum CerError {
    /// A PEM block is malformed (framing or base64).
    Pem(x509_parser::error::PEMError),
    /// The DER payload of a PEM block is not an X.509 certificate.
    Parse(x509_parser::nom::Err<x509_parser::error::X509Error>),
    /// A common name is held in bytes that are not UTF-8.
    CommonName(core::str::Utf8Error),
    /// The friendly name of a container certificate could not be read.
    FriendlyName(std::io::Error),
    /// The description of a container certificate could not be read.
    Description(std::io::Error),
    /// The description of a container certificate is not UTF-8.
    DescriptionUtf8(core::str::Utf8Error),
    /// The subject-alternative-name extension is malformed, repeated, or holds
    /// an entry that is not a DNS name.
    San(x509_parser::error::X509Error),
    /// The expiration lies outside the representable range of timestamps.
    Timestamp,
    /// The PKCS#12 container could not be imported (bad password, corrupt data).
    Pfx(std::io::Error),
    /// The password flag is not a string.
    Password(nu_protocol::ShellError),
    /// A container certificate's DER form is not an X.509 certificate.
    Der(x509_parser::nom::Err<x509_parser::error::X509Error>),
    /// The fingerprint of a container certificate could not be computed.
    Fingerprint(std::io::Error),
}

} // verus!
