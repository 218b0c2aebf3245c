//! The record builder: from the fields of one certificate, as plain values, to
//! the six fields of its record.
use vstd::prelude::*;
use crate::error::CerError;

verus! {

/// The value of one common-name attribute: decoded text where its encoding is a
/// recognized textual string type, else its raw bytes.
pub enum NameValue {
    Text(String),
    Raw(Vec<u8>),
}

/// One entry of a subject-alternative-name extension.
pub enum GeneralNameEntry {
    Dns(String),
    Other,
}

/// What the subject-alternative-name extension of a certificate holds.
pub enum SanExtension {
    /// The certificate has no such extension.
    Absent,
    /// The extension is malformed or present more than once.
    Invalid(x509_parser::error::X509Error),
    /// The extension's entries, in order.
    Present(Vec<GeneralNameEntry>),
}

/// The parts of a parsed certificate that a record is built from.
pub struct Certificate {
    /// The subject's distinguished name in its standard string form.
    pub subject: String,
    /// The issuer's distinguished name in its standard string form.
    pub issuer: String,
    /// The common-name attributes of the subject, in order.
    pub subject_common_names: Vec<NameValue>,
    /// The common-name attributes of the issuer, in order.
    pub issuer_common_names: Vec<NameValue>,
    pub san: SanExtension,
    /// The "not valid after" bound, in seconds since the Unix epoch.
    pub not_after: i64,
}

/// The fields that every record has, whatever its source.
pub struct CertFields {
    pub cn: Vec<String>,
    pub subject: String,
    pub san: Vec<String>,
    pub ca: Vec<String>,
    pub ca_subject: String,
    /// Seconds since the Unix epoch, with no sub-second part.
    pub expiration: i64,
}

/// One record per certificate: the common fields, the thumbprint, and for a
/// certificate read from a PKCS#12 container its friendly name.
pub struct CertRecord {
    pub fields: CertFields,
    pub thumbprint: String,
    pub friendly: Option<String>,
}

/// A common-name value as mathematical data.
pub enum NameView {
    Text(Seq<char>),
    Raw(Seq<u8>),
}

impl View for NameValue {
    type V = NameView;

    open spec fn view(&self) -> NameView {
        match self {
            NameValue::Text(s) => NameView::Text(s@),
            NameValue::Raw(b) => NameView::Raw(b@),
        }
    }
}

impl View for GeneralNameEntry {
    /// The DNS name, or `None` for an entry of another type.
    type V = Option<Seq<char>>;

    open spec fn view(&self) -> Option<Seq<char>> {
        match self {
            GeneralNameEntry::Dns(s) => Some(s@),
            GeneralNameEntry::Other => None,
        }
    }
}

/// A subject-alternative-name extension as mathematical data.
pub enum SanView {
    Absent,
    Invalid,
    Present(Seq<Option<Seq<char>>>),
}

impl View for SanExtension {
    type V = SanView;

    open spec fn view(&self) -> SanView {
        match self {
            SanExtension::Absent => SanView::Absent,
            SanExtension::Invalid(_) => SanView::Invalid,
            SanExtension::Present(ns) => SanView::Present(ns@.map_values(|n: GeneralNameEntry| n@)),
        }
    }
}

/// The parts of a certificate that a record is built from, as mathematical data.
pub struct CertView {
    pub subject: Seq<char>,
    pub issuer: Seq<char>,
    pub subject_common_names: Seq<NameView>,
    pub issuer_common_names: Seq<NameView>,
    pub san: SanView,
    pub not_after: i64,
}

/// The views of a sequence of common-name values.
pub open spec fn name_views(v: Seq<NameValue>) -> Seq<NameView> {
    v.map_values(|x: NameValue| x@)
}

impl View for Certificate {
    type V = CertView;

    open spec fn view(&self) -> CertView {
        CertView {
            subject: self.subject@,
            issuer: self.issuer@,
            subject_common_names: name_views(self.subject_common_names@),
            issuer_common_names: name_views(self.issuer_common_names@),
            san: self.san@,
            not_after: self.not_after,
        }
    }
}

/// The text decoded from the bytes when they are valid UTF-8.
pub uninterp spec fn utf8_decode(b: Seq<u8>) -> Option<Seq<char>>;

/// Relies on `core::str::from_utf8`: it succeeds exactly on valid UTF-8, and the
/// text then depends on the bytes alone.
#[verifier::external_body]
fn from_utf8(b: &[u8]) -> (r: Result<String, core::str::Utf8Error>)
    ensures
        r is Ok <==> utf8_decode(b@) is Some,
        r is Ok ==> r->Ok_0@ == utf8_decode(b@)->Some_0,
{
    core::str::from_utf8(b).map(|s| s.to_string())
}

/// The text of one common-name value, where it has one.
pub open spec fn name_text(v: NameView) -> Option<Seq<char>> {
    match v {
        NameView::Text(s) => Some(s),
        NameView::Raw(b) => utf8_decode(b),
    }
}

/// Every value of the sequence has a text.
pub open spec fn names_readable(vs: Seq<NameView>) -> bool {
    forall|i: int| 0 <= i < vs.len() ==> (#[trigger] name_text(vs[i])) is Some
}

/// The texts of the values, in order.
pub open spec fn names_texts(vs: Seq<NameView>) -> Seq<Seq<char>> {
    vs.map_values(|v: NameView| name_text(v)->Some_0)
}

/// The views of a sequence of strings.
pub open spec fn texts(v: Seq<String>) -> Seq<Seq<char>> {
    v.map_values(|s: String| s@)
}

/// Decodes each common-name attribute, in order; fails with `CommonName` if any
/// of them is raw bytes that are not UTF-8.
pub fn parse_common_names(names: &Vec<NameValue>) -> (r: Result<Vec<String>, CerError>)
    ensures
        r is Ok <==> names_readable(name_views(names@)),
        r is Ok ==> texts(r->Ok_0@) == names_texts(name_views(names@)),
        r is Err ==> r->Err_0 is CommonName,
{
    let ghost vs = name_views(names@);
    let mut out: Vec<String> = Vec::new();
    let mut i: usize = 0;
    while i < names.len()
        invariant
            i <= names@.len(),
            vs == name_views(names@),
            names_readable(vs.subrange(0, i as int)),
            texts(out@) == names_texts(vs.subrange(0, i as int)),
        decreases names@.len() - i,
    {
        assert(vs[i as int] == names@[i as int]@);
        let text = match &names[i] {
            NameValue::Text(s) => s.clone(),
            NameValue::Raw(b) => match from_utf8(b.as_slice()) {
                Ok(s) => s,
                Err(e) => {
                    assert(!(name_text(vs[i as int]) is Some));
                    return Err(CerError::CommonName(e));
                },
            },
        };
        assert(name_text(vs[i as int]) == Some(text@));
        let ghost before = out@;
        out.push(text);
        i = i + 1;
        assert(vs.subrange(0, i as int) =~= vs.subrange(0, i - 1).push(vs[i - 1]));
        assert(texts(out@) =~= texts(before).push(text@));
        assert(names_texts(vs.subrange(0, i as int)) =~= names_texts(vs.subrange(0, i - 1)).push(
            name_text(vs[i - 1])->Some_0,
        ));
    }
    assert(vs.subrange(0, i as int) == vs);
    Ok(out)
}

/// The common names of the subject.
pub fn get_common_names(cer: &Certificate) -> (r: Result<Vec<String>, CerError>)
    ensures
        r is Ok <==> names_readable(cer@.subject_common_names),
        r is Ok ==> texts(r->Ok_0@) == names_texts(cer@.subject_common_names),
        r is Err ==> r->Err_0 is CommonName,
{
    parse_common_names(&cer.subject_common_names)
}

/// The common names of the issuer.
pub fn get_ca_common_names(cer: &Certificate) -> (r: Result<Vec<String>, CerError>)
    ensures
        r is Ok <==> names_readable(cer@.issuer_common_names),
        r is Ok ==> texts(r->Ok_0@) == names_texts(cer@.issuer_common_names),
        r is Err ==> r->Err_0 is CommonName,
{
    parse_common_names(&cer.issuer_common_names)
}

/// The subject's distinguished name.
pub fn get_subject(cer: &Certificate) -> (r: String)
    ensures
        r@ == cer.subject@,
{
    cer.subject.clone()
}

/// The issuer's distinguished name.
pub fn get_ca_subject(cer: &Certificate) -> (r: String)
    ensures
        r@ == cer.issuer@,
{
    cer.issuer.clone()
}

/// Every entry of the extension is a DNS name.
pub open spec fn all_dns(ns: Seq<Option<Seq<char>>>) -> bool {
    forall|i: int| 0 <= i < ns.len() ==> (#[trigger] ns[i]) is Some
}

/// The DNS names of the entries, in order.
pub open spec fn dns_names(ns: Seq<Option<Seq<char>>>) -> Seq<Seq<char>> {
    ns.map_values(|n: Option<Seq<char>>| n->Some_0)
}

/// Whether the subject alternative names can be read: the extension is absent,
/// or present, well formed, and made of DNS names only.
pub open spec fn san_readable(san: SanView) -> bool {
    match san {
        SanView::Absent => true,
        SanView::Invalid => false,
        SanView::Present(ns) => all_dns(ns),
    }
}

/// The subject alternative names, where they can be read.
pub open spec fn san_names(san: SanView) -> Seq<Seq<char>> {
    match san {
        SanView::Present(ns) => dns_names(ns),
        _ => Seq::empty(),
    }
}

/// The DNS names of the subject-alternative-name extension, in order: none when
/// the extension is absent, and `San` when it is malformed, repeated, or holds an
/// entry of another type.
pub fn get_sans(cer: &Certificate) -> (r: Result<Vec<String>, CerError>)
    ensures
        r is Ok <==> san_readable(cer.san@),
        r is Ok ==> texts(r->Ok_0@) == san_names(cer.san@),
        r is Err ==> r->Err_0 is San,
        cer.san is Invalid ==> r is Err && r->Err_0 == CerError::San(cer.san->Invalid_0),
{
    match &cer.san {
        SanExtension::Absent => {
            let out: Vec<String> = Vec::new();
            assert(texts(out@) =~= Seq::<Seq<char>>::empty());
            Ok(out)
        },
        SanExtension::Invalid(e) => Err(CerError::San(x509_error_clone(e))),
        SanExtension::Present(ns) => {
            let ghost vs = ns@.map_values(|n: GeneralNameEntry| n@);
            let mut out: Vec<String> = Vec::new();
            let mut i: usize = 0;
            while i < ns.len()
                invariant
                    i <= ns@.len(),
                    vs == ns@.map_values(|n: GeneralNameEntry| n@),
                    cer.san@ == SanView::Present(vs),
                    all_dns(vs.subrange(0, i as int)),
                    texts(out@) == dns_names(vs.subrange(0, i as int)),
                decreases ns@.len() - i,
            {
                assert(vs[i as int] == ns@[i as int]@);
                match &ns[i] {
                    GeneralNameEntry::Dns(name) => {
                        let ghost before = out@;
                        out.push(name.clone());
                        i = i + 1;
                        assert(vs.subrange(0, i as int) =~= vs.subrange(0, i - 1).push(vs[i - 1]));
                        assert(texts(out@) =~= texts(before).push(name@));
                        assert(dns_names(vs.subrange(0, i as int)) =~= dns_names(
                            vs.subrange(0, i - 1),
                        ).push(name@));
                    },
                    GeneralNameEntry::Other => {
                        assert(!all_dns(vs));
                        return Err(CerError::San(invalid_certificate()));
                    },
                }
            }
            assert(vs.subrange(0, i as int) == vs);
            Ok(out)
        },
    }
}

/// Relies on the derived `Clone` for `x509_parser::error::X509Error`, which
/// copies the value.
#[verifier::external_body]
fn x509_error_clone(e: &x509_parser::error::X509Error) -> (r: x509_parser::error::X509Error)
    ensures
        r == *e,
{
    e.clone()
}

/// Relies on the variant `x509_parser::error::X509Error::InvalidCertificate`.
#[verifier::external_body]
fn invalid_certificate() -> (r: x509_parser::error::X509Error)
{
    x509_parser::error::X509Error::InvalidCertificate
}

/// Whether `chrono` can represent the instant that many seconds after the Unix epoch.
pub uninterp spec fn datetime_in_range(secs: i64) -> bool;

/// Relies on `chrono::DateTime::from_timestamp` with no nanoseconds: `None` on
/// an out-of-range number of seconds, else the instant, whose `timestamp` gives
/// the seconds back.
#[verifier::external_body]
fn utc_timestamp(secs: i64) -> (r: Option<i64>)
    ensures
        r == (if datetime_in_range(secs) { Some(secs) } else { None::<i64> }),
{
    chrono::DateTime::from_timestamp(secs, 0).map(|d| d.timestamp())
}

/// The expiration in whole seconds since the Unix epoch; `Timestamp` when it lies
/// outside the representable range.
pub fn get_expiration(cer: &Certificate) -> (r: Result<i64, CerError>)
    ensures
        r is Ok <==> datetime_in_range(cer.not_after),
        r is Ok ==> r->Ok_0 == cer.not_after,
        r is Err ==> r->Err_0 is Timestamp,
{
    match utc_timestamp(cer.not_after) {
        Some(secs) => Ok(secs),
        None => Err(CerError::Timestamp),
    }
}

/// A record can be built from the certificate.
pub open spec fn record_ok(cer: CertView) -> bool {
    &&& names_readable(cer.subject_common_names)
    &&& san_readable(cer.san)
    &&& names_readable(cer.issuer_common_names)
    &&& datetime_in_range(cer.not_after)
}

/// The fields hold what the certificate gives them.
pub open spec fn fields_of(f: CertFields, cer: CertView) -> bool {
    &&& texts(f.cn@) == names_texts(cer.subject_common_names)
    &&& f.subject@ == cer.subject
    &&& texts(f.san@) == san_names(cer.san)
    &&& texts(f.ca@) == names_texts(cer.issuer_common_names)
    &&& f.ca_subject@ == cer.issuer
    &&& f.expiration == cer.not_after
}

/// The error that building a record from the certificate meets first, in the
/// order common names, alternative names, issuer common names, expiration.
pub open spec fn record_error_fits(e: CerError, cer: CertView) -> bool {
    if !names_readable(cer.subject_common_names) {
        e is CommonName
    } else if !san_readable(cer.san) {
        e is San
    } else if !names_readable(cer.issuer_common_names) {
        e is CommonName
    } else {
        e is Timestamp
    }
}

/// The six common fields of the certificate's record.
pub fn get_record(cer: &Certificate) -> (r: Result<CertFields, CerError>)
    ensures
        r is Ok <==> record_ok(cer@),
        r is Ok ==> fields_of(r->Ok_0, cer@),
        r is Err ==> record_error_fits(r->Err_0, cer@),
{
    let cn = get_common_names(cer)?;
    let subject = get_subject(cer);
    let san = get_sans(cer)?;
    let ca = get_ca_common_names(cer)?;
    let ca_subject = get_ca_subject(cer);
    let expiration = get_expiration(cer)?;
    Ok(CertFields { cn, subject, san, ca, ca_subject, expiration })
}

} // verus!
