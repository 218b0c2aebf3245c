//! Reading a DER-encoded certificate with `x509_parser` into the plain fields
//! that the record builder works on.
use vstd::prelude::*;
use crate::record::{name_views, CertView, Certificate, GeneralNameEntry, NameValue, NameView, SanExtension, SanView};
use x509_parser::certificate::X509Certificate;
use x509_parser::error::X509Error;
use x509_parser::extensions::GeneralName;
use x509_parser::prelude::FromDer;

verus! {

/// The bytes are the DER encoding of an X.509 certificate that `x509_parser`
/// accepts.
pub uninterp spec fn der_parses(der: Seq<u8>) -> bool;

/// The standard string form of the subject's distinguished name.
pub uninterp spec fn subject_dn_of(der: Seq<u8>) -> Seq<char>;

/// The standard string form of the issuer's distinguished name.
pub uninterp spec fn issuer_dn_of(der: Seq<u8>) -> Seq<char>;

/// The values of the subject's common-name attributes, in order.
pub uninterp spec fn subject_common_names_of(der: Seq<u8>) -> Seq<NameView>;

/// The values of the issuer's common-name attributes, in order.
pub uninterp spec fn issuer_common_names_of(der: Seq<u8>) -> Seq<NameView>;

/// The subject-alternative-name extension.
pub uninterp spec fn san_of(der: Seq<u8>) -> SanView;

/// The "not valid after" bound, in seconds since the Unix epoch.
pub uninterp spec fn not_after_of(der: Seq<u8>) -> i64;

/// What a record is built from, for the certificate that the bytes encode.
pub open spec fn certificate_of(der: Seq<u8>) -> CertView {
    CertView {
        subject: subject_dn_of(der),
        issuer: issuer_dn_of(der),
        subject_common_names: subject_common_names_of(der),
        issuer_common_names: issuer_common_names_of(der),
        san: san_of(der),
        not_after: not_after_of(der),
    }
}

/// Relies on `X509Certificate::from_der`, which parses one DER certificate; its
/// success depends on the bytes alone.
#[verifier::external_body]
fn check_der(der: &[u8]) -> (r: Result<(), x509_parser::nom::Err<X509Error>>)
    ensures
        r is Ok <==> der_parses(der@),
{
    X509Certificate::from_der(der).map(|_| ())
}

/// Relies on `X509Certificate::from_der` and on the `Display` impl of the
/// subject `X509Name`, its standard string form.
#[verifier::external_body]
fn subject_dn(der: &[u8]) -> (r: Option<String>)
    ensures
        r is Some <==> der_parses(der@),
        r is Some ==> r->Some_0@ == subject_dn_of(der@),
{
    X509Certificate::from_der(der).ok().map(|(_, c)| c.subject().to_string())
}

/// Relies on `X509Certificate::from_der` and on the `Display` impl of the
/// issuer `X509Name`, its standard string form.
#[verifier::external_body]
fn issuer_dn(der: &[u8]) -> (r: Option<String>)
    ensures
        r is Some <==> der_parses(der@),
        r is Some ==> r->Some_0@ == issuer_dn_of(der@),
{
    X509Certificate::from_der(der).ok().map(|(_, c)| c.issuer().to_string())
}

/// Relies on `X509Certificate::from_der`, `X509Name::iter_common_name` on the
/// subject, and per attribute `as_str` (text of NumericString, PrintableString,
/// UTF8String or IA5String) else `as_slice` (the raw bytes).
#[verifier::external_body]
fn subject_common_names(der: &[u8]) -> (r: Option<Vec<NameValue>>)
    ensures
        r is Some <==> der_parses(der@),
        r is Some ==> name_views(r->Some_0@) == subject_common_names_of(der@),
{
    X509Certificate::from_der(der).ok().map(|(_, c)| c.subject().iter_common_name().map(|a| match a.as_str() {
        Ok(s) => NameValue::Text(s.to_string()),
        Err(_) => NameValue::Raw(a.as_slice().to_vec()),
    }).collect())
}

/// Relies on `X509Certificate::from_der`, `X509Name::iter_common_name` on the
/// issuer, and per attribute `as_str` (text of NumericString, PrintableString,
/// UTF8String or IA5String) else `as_slice` (the raw bytes).
#[verifier::external_body]
fn issuer_common_names(der: &[u8]) -> (r: Option<Vec<NameValue>>)
    ensures
        r is Some <==> der_parses(der@),
        r is Some ==> name_views(r->Some_0@) == issuer_common_names_of(der@),
{
    X509Certificate::from_der(der).ok().map(|(_, c)| c.issuer().iter_common_name().map(|a| match a.as_str() {
        Ok(s) => NameValue::Text(s.to_string()),
        Err(_) => NameValue::Raw(a.as_slice().to_vec()),
    }).collect())
}

/// Relies on `X509Certificate::from_der` and `subject_alternative_name`:
/// `Ok(None)` without the extension, an error when it is invalid or present
/// twice or more, else its general names in order, of which the `DNSName`
/// variant keeps its name.
#[verifier::external_body]
fn san_extension(der: &[u8]) -> (r: Option<SanExtension>)
    ensures
        r is Some <==> der_parses(der@),
        r is Some ==> r->Some_0@ == san_of(der@),
{
    X509Certificate::from_der(der).ok().map(|(_, c)| match c.subject_alternative_name() {
        Ok(None) => SanExtension::Absent,
        Ok(Some(ext)) => SanExtension::Present(ext.value.general_names.iter().map(|n| match n {
            GeneralName::DNSName(s) => GeneralNameEntry::Dns(s.to_string()),
            _ => GeneralNameEntry::Other,
        }).collect()),
        Err(e) => SanExtension::Invalid(e),
    })
}

/// Relies on `X509Certificate::from_der`, `validity` and `ASN1Time::timestamp`:
/// the "not after" bound in seconds since the Unix epoch.
#[verifier::external_body]
fn not_after_secs(der: &[u8]) -> (r: Option<i64>)
    ensures
        r is Some <==> der_parses(der@),
        r is Some ==> r->Some_0 == not_after_of(der@),
{
    X509Certificate::from_der(der).ok().map(|(_, c)| c.validity().not_after.timestamp())
}

impl Certificate {
    /// Parses one DER-encoded certificate into the fields that a record is built
    /// from.
    pub fn parse_der(der: &[u8]) -> (r: Result<Certificate, x509_parser::nom::Err<X509Error>>)
        ensures
            r is Ok <==> der_parses(der@),
            r is Ok ==> r->Ok_0@ == certificate_of(der@),
    {
        if let Err(e) = check_der(der) {
            return Err(e);
        }
        match (subject_dn(der), issuer_dn(der), subject_common_names(der), issuer_common_names(der)) {
            (Some(subject), Some(issuer), Some(subject_common_names), Some(issuer_common_names)) => {
                match (san_extension(der), not_after_secs(der)) {
                    (Some(san), Some(not_after)) => Ok(Certificate {
                        subject,
                        issuer,
                        subject_common_names,
                        issuer_common_names,
                        san,
                        not_after,
                    }),
                    _ => vstd::pervasive::unreached(),
                }
            },
            _ => vstd::pervasive::unreached(),
        }
    }
}

} // verus!
