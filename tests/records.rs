use cer::digest::get_thumbprint;
use cer::error::CerError;
use cer::record::{
    get_ca_common_names, get_ca_subject, get_common_names, get_expiration, get_record, get_sans,
    get_subject, parse_common_names, CertFields, Certificate, GeneralNameEntry, NameValue,
    SanExtension,
};

fn example_certificate(san: SanExtension) -> Certificate {
    Certificate {
        subject: "CN=cer.com, Email=cer@example.com, O=Example".to_string(),
        issuer: "CN=ca.com, Email=ca@example.com, O=Example".to_string(),
        subject_common_names: vec![NameValue::Text("cer.com".to_string())],
        issuer_common_names: vec![NameValue::Text("ca.com".to_string())],
        san,
        not_after: 1700000000,
    }
}

fn dns(s: &str) -> GeneralNameEntry {
    GeneralNameEntry::Dns(s.to_string())
}

#[test]
fn example_record_fields() {
    let cer = example_certificate(SanExtension::Present(vec![dns("alternative.com")]));
    let f: CertFields = get_record(&cer).unwrap();
    assert_eq!(f.cn, vec!["cer.com".to_string()]);
    assert_eq!(f.subject, "CN=cer.com, Email=cer@example.com, O=Example");
    assert_eq!(f.san, vec!["alternative.com".to_string()]);
    assert_eq!(f.ca, vec!["ca.com".to_string()]);
    assert_eq!(f.ca_subject, "CN=ca.com, Email=ca@example.com, O=Example");
    assert_eq!(f.expiration, 1700000000);
}

#[test]
fn subject_and_issuer_strings() {
    let cer = example_certificate(SanExtension::Absent);
    assert_eq!(get_subject(&cer), "CN=cer.com, Email=cer@example.com, O=Example");
    assert_eq!(get_ca_subject(&cer), "CN=ca.com, Email=ca@example.com, O=Example");
    assert_eq!(get_common_names(&cer).unwrap(), vec!["cer.com".to_string()]);
    assert_eq!(get_ca_common_names(&cer).unwrap(), vec!["ca.com".to_string()]);
}

#[test]
fn san_absent_is_empty() {
    let cer = example_certificate(SanExtension::Absent);
    assert!(get_sans(&cer).unwrap().is_empty());
}

#[test]
fn san_dns_entries_in_order() {
    let cer = example_certificate(SanExtension::Present(vec![dns("b.com"), dns("a.com"), dns("c.com")]));
    assert_eq!(
        get_sans(&cer).unwrap(),
        vec!["b.com".to_string(), "a.com".to_string(), "c.com".to_string()]
    );
}

#[test]
fn san_empty_extension_is_empty() {
    let cer = example_certificate(SanExtension::Present(Vec::new()));
    assert!(get_sans(&cer).unwrap().is_empty());
}

#[test]
fn san_non_dns_entry_is_error() {
    let cer = example_certificate(SanExtension::Present(vec![dns("a.com"), GeneralNameEntry::Other]));
    assert!(matches!(get_sans(&cer), Err(CerError::San(_))));
    assert!(matches!(get_record(&cer), Err(CerError::San(_))));
}

#[test]
fn san_invalid_extension_is_error() {
    let cer = example_certificate(SanExtension::Invalid(
        x509_parser::error::X509Error::InvalidExtensions,
    ));
    assert!(matches!(
        get_sans(&cer),
        Err(CerError::San(x509_parser::error::X509Error::InvalidExtensions))
    ));
}

#[test]
fn common_names_raw_utf8_is_decoded() {
    let names = vec![
        NameValue::Raw("h\u{e9}llo".as_bytes().to_vec()),
        NameValue::Text("second".to_string()),
    ];
    assert_eq!(
        parse_common_names(&names).unwrap(),
        vec!["h\u{e9}llo".to_string(), "second".to_string()]
    );
}

#[test]
fn common_names_empty() {
    assert!(parse_common_names(&Vec::new()).unwrap().is_empty());
}

#[test]
fn common_names_raw_not_utf8_is_error() {
    let names = vec![NameValue::Text("ok".to_string()), NameValue::Raw(vec![0xff, 0xfe])];
    assert!(matches!(parse_common_names(&names), Err(CerError::CommonName(_))));
}

#[test]
fn issuer_common_name_not_utf8_is_error() {
    let mut cer = example_certificate(SanExtension::Absent);
    cer.issuer_common_names = vec![NameValue::Raw(vec![0xc3])];
    assert!(matches!(get_record(&cer), Err(CerError::CommonName(_))));
}

#[test]
fn expiration_in_range() {
    let mut cer = example_certificate(SanExtension::Absent);
    cer.not_after = 0;
    assert_eq!(get_expiration(&cer).unwrap(), 0);
    cer.not_after = -86400;
    assert_eq!(get_expiration(&cer).unwrap(), -86400);
}

#[test]
fn expiration_out_of_range_is_timestamp_error() {
    let mut cer = example_certificate(SanExtension::Absent);
    cer.not_after = i64::MAX;
    assert!(matches!(get_expiration(&cer), Err(CerError::Timestamp)));
    assert!(matches!(get_record(&cer), Err(CerError::Timestamp)));
    cer.not_after = i64::MIN;
    assert!(matches!(get_expiration(&cer), Err(CerError::Timestamp)));
}

#[test]
fn thumbprint_of_known_bytes() {
    assert_eq!(get_thumbprint(b"abc"), "a9993e364706816aba3e25717850c26c9cd0d89d");
    assert_eq!(get_thumbprint(b""), "da39a3ee5e6b4b0d3255bfef95601890afd80709");
}
