//! The PEM path: every certificate block of a text, in document order.
use vstd::prelude::*;
use crate::digest::{get_thumbprint, hex_lower, sha1_of};
use crate::error::CerError;
use crate::x509::{certificate_of, der_parses};
use crate::record::{fields_of, texts, get_record, record_error_fits, record_ok, CertRecord, Certificate};
use x509_parser::error::PEMError;

verus! {

/// The blocks that `x509_parser` finds in a text, in order: the decoded payload
/// of each well-formed block, `None` for a malformed one.
pub uninterp spec fn pem_scan(text: Seq<char>) -> Seq<Option<Seq<u8>>>;

/// Relies on `Pem::iter_from_buffer` over the text's bytes: one item per block
/// that begins with a `-----BEGIN ` line, the block's base64 payload decoded, or
/// the error met while reading it.
#[verifier::external_body]
fn pem_blocks(text: &str) -> (r: Vec<Result<Vec<u8>, PEMError>>)
    ensures
        r@.len() == pem_scan(text@).len(),
        text@.len() == 0 ==> r@.len() == 0,
        forall|i: int| 0 <= i < r@.len() ==> ((#[trigger] r@[i]) is Ok <==> pem_scan(text@)[i] is Some),
        forall|i: int| 0 <= i < r@.len() && (#[trigger] r@[i]) is Ok ==> r@[i]->Ok_0@ == pem_scan(text@)[i]->Some_0,
{
    x509_parser::pem::Pem::iter_from_buffer(text.as_bytes()).map(|b| b.map(|p| p.contents)).collect()
}

/// The block is well formed, its payload is a certificate, and a record can be
/// built from it.
pub open spec fn block_ok(b: Option<Seq<u8>>) -> bool {
    &&& b is Some
    &&& der_parses(b->Some_0)
    &&& record_ok(certificate_of(b->Some_0))
}

/// Every block of the text gives a record.
pub open spec fn all_blocks_ok(text: Seq<char>) -> bool {
    forall|i: int| 0 <= i < pem_scan(text).len() ==> #[trigger] block_ok(pem_scan(text)[i])
}

/// The records match the blocks one for one: the fields are those of the
/// block's certificate, and the thumbprint is the lowercase hex of the SHA-1
/// digest of the payload.
pub open spec fn pem_records(text: Seq<char>, recs: Seq<CertRecord>) -> bool {
    let blocks = pem_scan(text);
    &&& recs.len() == blocks.len()
    &&& forall|i: int| 0 <= i < recs.len() ==> {
        &&& #[trigger] block_ok(blocks[i])
        &&& fields_of(recs[i].fields, certificate_of(blocks[i]->Some_0))
        &&& recs[i].thumbprint@ == hex_lower(sha1_of(blocks[i]->Some_0))
        &&& recs[i].friendly is None
    }
}

/// The error that reading the block meets first: `Pem` for a malformed block,
/// `Parse` for a payload that is no certificate, else the record builder's.
pub open spec fn block_error_fits(e: CerError, b: Option<Seq<u8>>) -> bool {
    if b is None {
        e is Pem
    } else if !der_parses(b->Some_0) {
        e is Parse
    } else {
        record_error_fits(e, certificate_of(b->Some_0))
    }
}

/// The error is that of the first block of the text that gives no record.
pub open spec fn pem_error_fits(text: Seq<char>, e: CerError) -> bool {
    exists|k: int| {
        &&& 0 <= k < pem_scan(text).len()
        &&& !block_ok(#[trigger] pem_scan(text)[k])
        &&& (forall|j: int| 0 <= j < k ==> block_ok(#[trigger] pem_scan(text)[j]))
        &&& block_error_fits(e, pem_scan(text)[k])
    }
}

/// One record per PEM block of the text, in document order. The first block
/// that fails aborts the whole call: `Pem` for a malformed block, `Parse` for a
/// payload that is no certificate, or the record builder's error.
pub fn get_pem_values(val: &String) -> (r: Result<Vec<CertRecord>, CerError>)
    ensures
        r is Ok <==> all_blocks_ok(val@),
        r is Ok ==> pem_records(val@, r->Ok_0@),
        r is Err ==> pem_error_fits(val@, r->Err_0),
        val@.len() == 0 ==> r is Ok && r->Ok_0@.len() == 0,
{
    let mut blocks = pem_blocks(val.as_str());
    let ghost all = blocks@;
    let ghost scan = pem_scan(val@);
    let n = blocks.len();
    let mut out: Vec<CertRecord> = Vec::new();
    let mut k: usize = 0;
    while blocks.len() > 0
        invariant
            n == all.len(),
            scan == pem_scan(val@),
            scan.len() == n,
            val@.len() == 0 ==> n == 0,
            forall|i: int| 0 <= i < n ==> ((#[trigger] all[i]) is Ok <==> scan[i] is Some),
            forall|i: int| 0 <= i < n && (#[trigger] all[i]) is Ok ==> all[i]->Ok_0@ == scan[i]->Some_0,
            k + blocks@.len() == n,
            blocks@ == all.subrange(k as int, n as int),
            out@.len() == k,
            forall|i: int| 0 <= i < k ==> {
                &&& #[trigger] block_ok(scan[i])
                &&& fields_of(out@[i].fields, certificate_of(scan[i]->Some_0))
                &&& out@[i].thumbprint@ == hex_lower(sha1_of(scan[i]->Some_0))
                &&& out@[i].friendly is None
            },
        decreases blocks@.len(),
    {
        assert(blocks@[0] == all[k as int]);
        let block = blocks.remove(0);
        match block {
            Err(e) => {
                let r = Err(CerError::Pem(e));
                assert(block_error_fits(r->Err_0, scan[k as int]));
                assert(pem_error_fits(val@, r->Err_0));
                return r;
            },
            Ok(der) => {
                let cer = match Certificate::parse_der(der.as_slice()) {
                    Ok(c) => c,
                    Err(e) => {
                        let r = Err(CerError::Parse(e));
                        assert(block_error_fits(r->Err_0, scan[k as int]));
                        assert(pem_error_fits(val@, r->Err_0));
                        return r;
                    },
                };
                let fields = match get_record(&cer) {
                    Ok(f) => f,
                    Err(e) => {
                        assert(block_error_fits(e, scan[k as int]));
                        assert(pem_error_fits(val@, e));
                        return Err(e);
                    },
                };
                let thumbprint = get_thumbprint(der.as_slice());
                assert(der@ == scan[k as int]->Some_0);
                assert(fields_of(fields, certificate_of(scan[k as int]->Some_0)));
                assert(block_ok(scan[k as int]));
                let ghost before = out@;
                out.push(CertRecord { fields, thumbprint, friendly: None });
                assert(forall|i: int| 0 <= i < k ==> out@[i] == before[i]);
                assert(fields_of(out@[k as int].fields, certificate_of(scan[k as int]->Some_0)));
                assert(out@[k as int].thumbprint@ == hex_lower(sha1_of(scan[k as int]->Some_0)));
                k = k + 1;
                assert forall|i: int| 0 <= i < k implies {
                    &&& #[trigger] block_ok(scan[i])
                    &&& fields_of(out@[i].fields, certificate_of(scan[i]->Some_0))
                    &&& out@[i].thumbprint@ == hex_lower(sha1_of(scan[i]->Some_0))
                    &&& out@[i].friendly is None
                } by {
                    if i < k - 1 {
                        assert(out@[i] == before[i]);
                        assert(block_ok(scan[i]));
                        assert(fields_of(before[i].fields, certificate_of(scan[i]->Some_0)));
                        assert(fields_of(out@[i].fields, certificate_of(scan[i]->Some_0)));
                    } else {
                        assert(i == k - 1);
                        assert(fields_of(out@[i].fields, certificate_of(scan[i]->Some_0)));
                    }
                }
            },
        }
    }
    Ok(out)
}

/// Reading the same text twice gives the same outcome: both calls succeed or
/// both fail, and on success the records have the same fields and the same
/// thumbprints, in the same order.
pub proof fn lemma_pem_deterministic(text: Seq<char>, a: Seq<CertRecord>, b: Seq<CertRecord>)
    requires
        pem_records(text, a),
        pem_records(text, b),
    ensures
        a.len() == b.len(),
        forall|i: int| 0 <= i < a.len() ==> (#[trigger] a[i]).thumbprint@ == b[i].thumbprint@,
        forall|i: int| 0 <= i < a.len() ==> {
            &&& texts((#[trigger] a[i]).fields.cn@) == texts(b[i].fields.cn@)
            &&& a[i].fields.subject@ == b[i].fields.subject@
            &&& texts(a[i].fields.san@) == texts(b[i].fields.san@)
            &&& texts(a[i].fields.ca@) == texts(b[i].fields.ca@)
            &&& a[i].fields.ca_subject@ == b[i].fields.ca_subject@
            &&& a[i].fields.expiration == b[i].fields.expiration
        },
{
    assert forall|i: int| 0 <= i < a.len() implies (#[trigger] a[i]).thumbprint@ == b[i].thumbprint@ by {
        assert(block_ok(pem_scan(text)[i]));
    }
    assert forall|i: int| 0 <= i < a.len() implies {
        &&& texts((#[trigger] a[i]).fields.cn@) == texts(b[i].fields.cn@)
        &&& a[i].fields.subject@ == b[i].fields.subject@
        &&& texts(a[i].fields.san@) == texts(b[i].fields.san@)
        &&& texts(a[i].fields.ca@) == texts(b[i].fields.ca@)
        &&& a[i].fields.ca_subject@ == b[i].fields.ca_subject@
        &&& a[i].fields.expiration == b[i].fields.expiration
    } by {
        assert(block_ok(pem_scan(text)[i]));
    }
}

} // verus!
