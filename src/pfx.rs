//! The PKCS#12 path: the certificates of an imported container, each with the
//! friendly name and fingerprint that the container's store gave for it.
use vstd::prelude::*;
use crate::digest::hex_lower;
use crate::error::CerError;
use crate::x509::{certificate_of, der_parses};
use crate::record::{fields_of, get_record, record_error_fits, record_ok, CertRecord, Certificate};

verus! {

/// What the store of an imported container gives for one certificate: its DER
/// encoding, and the outcome of reading its friendly name and its SHA-1
/// fingerprint.
pub struct PfxCertificate {
    pub der: Vec<u8>,
    pub friendly: Result<String, std::io::Error>,
    pub fingerprint: Result<Vec<u8>, std::io::Error>,
}

/// Relies on `data_encoding::HEXLOWER.encode`: two lowercase hex digits per
/// byte, in order.
#[verifier::external_body]
fn hexlower_encode(data: &[u8]) -> (r: String)
    ensures
        r@ == hex_lower(data@),
{
    data_encoding::HEXLOWER.encode(data)
}

/// The friendly name, or `FriendlyName` when it could not be read.
pub fn get_pfx_friendly_name(friendly: Result<String, std::io::Error>) -> (r: Result<String, CerError>)
    ensures
        r is Ok <==> friendly is Ok,
        r is Ok ==> r->Ok_0@ == friendly->Ok_0@,
        r is Err ==> r->Err_0 == CerError::FriendlyName(friendly->Err_0),
{
    match friendly {
        Ok(name) => Ok(name),
        Err(e) => Err(CerError::FriendlyName(e)),
    }
}

/// The fingerprint as lowercase hex, or `Fingerprint` when it could not be
/// computed.
pub fn get_pfx_thumbprint(fingerprint: Result<Vec<u8>, std::io::Error>) -> (r: Result<String, CerError>)
    ensures
        r is Ok <==> fingerprint is Ok,
        r is Ok ==> r->Ok_0@ == hex_lower(fingerprint->Ok_0@),
        r is Err ==> r->Err_0 == CerError::Fingerprint(fingerprint->Err_0),
{
    match fingerprint {
        Ok(bytes) => Ok(hexlower_encode(bytes.as_slice())),
        Err(e) => Err(CerError::Fingerprint(e)),
    }
}

/// Every step succeeds for the certificate: its DER form parses, a record can
/// be built from it, and its friendly name and fingerprint were read.
pub open spec fn pfx_cert_ok(c: PfxCertificate) -> bool {
    &&& der_parses(c.der@)
    &&& record_ok(certificate_of(c.der@))
    &&& c.friendly is Ok
    &&& c.fingerprint is Ok
}

/// The record of a container certificate: the fields are those of its DER form,
/// and it carries its friendly name and the hex of its fingerprint.
pub open spec fn pfx_record(c: PfxCertificate, rec: CertRecord) -> bool {
    &&& pfx_cert_ok(c)
    &&& fields_of(rec.fields, certificate_of(c.der@))
    &&& rec.friendly is Some
    &&& rec.friendly->Some_0@ == c.friendly->Ok_0@
    &&& rec.thumbprint@ == hex_lower(c.fingerprint->Ok_0@)
}

/// The error that the certificate meets first, in the order DER parsing, record
/// builder, friendly name, fingerprint.
pub open spec fn pfx_cert_error_fits(e: CerError, c: PfxCertificate) -> bool {
    if !der_parses(c.der@) {
        e is Der
    } else if !record_ok(certificate_of(c.der@)) {
        record_error_fits(e, certificate_of(c.der@))
    } else if c.friendly is Err {
        e == CerError::FriendlyName(c.friendly->Err_0)
    } else {
        e == CerError::Fingerprint(c.fingerprint->Err_0)
    }
}

/// Every certificate gives a record.
pub open spec fn all_pfx_ok(certs: Seq<PfxCertificate>) -> bool {
    forall|i: int| 0 <= i < certs.len() ==> #[trigger] pfx_cert_ok(certs[i])
}

/// The error is that of the first certificate that gives no record.
pub open spec fn pfx_error_fits(certs: Seq<PfxCertificate>, e: CerError) -> bool {
    exists|k: int| {
        &&& 0 <= k < certs.len()
        &&& !pfx_cert_ok(#[trigger] certs[k])
        &&& (forall|j: int| 0 <= j < k ==> pfx_cert_ok(#[trigger] certs[j]))
        &&& pfx_cert_error_fits(e, certs[k])
    }
}

/// One record per certificate of the container, in the container's order. The
/// first certificate that fails aborts the whole call: `Der` for an encoding
/// that is no certificate, the record builder's error, then `FriendlyName` and
/// `Fingerprint`.
pub fn get_pfx_values(certs: Vec<PfxCertificate>) -> (r: Result<Vec<CertRecord>, CerError>)
    ensures
        r is Ok <==> all_pfx_ok(certs@),
        r is Ok ==> r->Ok_0@.len() == certs@.len(),
        r is Ok ==> forall|i: int| 0 <= i < certs@.len() ==> pfx_record(#[trigger] certs@[i], r->Ok_0@[i]),
        r is Err ==> pfx_error_fits(certs@, r->Err_0),
{
    let ghost all = certs@;
    let n = certs.len();
    let mut rest = certs;
    let mut out: Vec<CertRecord> = Vec::new();
    let mut k: usize = 0;
    while rest.len() > 0
        invariant
            n == all.len(),
            all == certs@,
            k + rest@.len() == n,
            rest@ == all.subrange(k as int, n as int),
            out@.len() == k,
            forall|i: int| 0 <= i < k ==> pfx_record(#[trigger] all[i], out@[i]),
        decreases rest@.len(),
    {
        assert(rest@[0] == all[k as int]);
        assert forall|j: int| 0 <= j < k implies pfx_cert_ok(#[trigger] all[j]) by {
            assert(pfx_record(all[j], out@[j]));
        }
        let c = rest.remove(0);
        let cer = match Certificate::parse_der(c.der.as_slice()) {
            Ok(cer) => cer,
            Err(e) => {
                let r = Err(CerError::Der(e));
                assert(pfx_cert_error_fits(r->Err_0, all[k as int]));
                assert(!pfx_cert_ok(all[k as int]));
                return r;
            },
        };
        let fields = match get_record(&cer) {
            Ok(f) => f,
            Err(e) => {
                assert(pfx_cert_error_fits(e, all[k as int]));
                assert(!pfx_cert_ok(all[k as int]));
                return Err(e);
            },
        };
        let friendly = match get_pfx_friendly_name(c.friendly) {
            Ok(name) => name,
            Err(e) => {
                assert(pfx_cert_error_fits(e, all[k as int]));
                assert(!pfx_cert_ok(all[k as int]));
                return Err(e);
            },
        };
        let thumbprint = match get_pfx_thumbprint(c.fingerprint) {
            Ok(hex) => hex,
            Err(e) => {
                assert(pfx_cert_error_fits(e, all[k as int]));
                assert(!pfx_cert_ok(all[k as int]));
                return Err(e);
            },
        };
        out.push(CertRecord { fields, thumbprint, friendly: Some(friendly) });
        k = k + 1;
    }
    Ok(out)
}

} // verus!
