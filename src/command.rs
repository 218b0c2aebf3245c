//! The `cer` command: which decoder an input goes to, and what the caller gets
//! back depending on the `list` switch.
use vstd::prelude::*;
use crate::error::CerError;
use crate::pem::{all_blocks_ok, get_pem_values, pem_error_fits, pem_records, pem_scan};
use crate::pfx::{all_pfx_ok, get_pfx_values, pfx_error_fits, pfx_record};
use crate::record::CertRecord;

verus! {

/// The input of the command: PEM text, or the certificates that the store of an
/// imported PKCS#12 container holds.
pub enum CertInput {
    Text(String),
    Container(Vec<crate::pfx::PfxCertificate>),
}

/// What the command returns: every record with `list`, else the first one.
pub enum CertOutput {
    List(Vec<CertRecord>),
    First(CertRecord),
}

/// Why the command failed.
#[derive(Debug)]
pub enum RunError {
    /// Reading a certificate failed.
    Cer(CerError),
    /// Without `list`, the input held no certificate.
    NoCertificates,
}

/// The `cer` command.
pub struct Cer;

/// The plugin that offers the `cer` command.
pub struct CerPlugin;

/// The output holds the records: all of them with `list`, else the first one.
pub open spec fn selected(recs: Seq<CertRecord>, list: bool, out: CertOutput) -> bool {
    if list {
        out is List && out->List_0@ == recs
    } else {
        recs.len() > 0 && out is First && out->First_0 == recs[0]
    }
}

impl Cer {
    /// The command's name.
    pub fn name(&self) -> (r: &'static str)
        ensures
            r@ == "cer"@,
    {
        "cer"
    }

    /// A one-line description of the command.
    pub fn usage(&self) -> (r: &'static str)
        ensures
            r@ == "Shows details of a cer/pfx"@,
    {
        "Shows details of a cer/pfx"
    }

    /// Words under which the command is found.
    pub fn search_terms(&self) -> (r: Vec<&'static str>)
        ensures
            r@.len() == 3,
            r@[0]@ == "certificate"@,
            r@[1]@ == "cer"@,
            r@[2]@ == "pfx"@,
    {
        vec!["certificate", "cer", "pfx"]
    }

    /// Every record with `list`; else the first, or `NoCertificates` when there
    /// is none.
    pub fn select(values: Vec<CertRecord>, list: bool) -> (r: Result<CertOutput, RunError>)
        ensures
            r is Ok <==> (list || values@.len() > 0),
            r is Ok ==> selected(values@, list, r->Ok_0),
            r is Err ==> r->Err_0 is NoCertificates,
    {
        if list {
            Ok(CertOutput::List(values))
        } else {
            let mut values = values;
            if values.len() == 0 {
                Err(RunError::NoCertificates)
            } else {
                Ok(CertOutput::First(values.swap_remove(0)))
            }
        }
    }

    /// Runs the command: PEM text goes to the PEM decoder, container
    /// certificates to the container decoder; then the `list` switch decides.
    pub fn run(input: CertInput, list: bool) -> (r: Result<CertOutput, RunError>)
        ensures
            r is Ok <==> decoded_ok(input) && (list || decoded_len(input) > 0),
            r is Ok ==> exists|recs: Seq<CertRecord>| selected(recs, list, r->Ok_0) && decoded(input, recs),
            r is Err && r->Err_0 is NoCertificates <==> decoded_ok(input) && !list && decoded_len(input) == 0,
            r is Err && r->Err_0 is Cer ==> !decoded_ok(input) && decode_error_fits(input, r->Err_0->Cer_0),
    {
        let ghost input_view = input;
        let values = match input {
            CertInput::Text(text) => match get_pem_values(&text) {
                Ok(v) => v,
                Err(e) => return Err(RunError::Cer(e)),
            },
            CertInput::Container(certs) => match get_pfx_values(certs) {
                Ok(v) => v,
                Err(e) => return Err(RunError::Cer(e)),
            },
        };
        let ghost recs = values@;
        assert(decoded(input_view, recs));
        let r = Cer::select(values, list);
        assert(r is Ok ==> selected(recs, list, r->Ok_0));
        r
    }
}

/// The decoder that the input goes to succeeds.
pub open spec fn decoded_ok(input: CertInput) -> bool {
    match input {
        CertInput::Text(t) => all_blocks_ok(t@),
        CertInput::Container(cs) => all_pfx_ok(cs@),
    }
}

/// How many certificates the input holds: blocks of the text, or certificates of
/// the container.
pub open spec fn decoded_len(input: CertInput) -> int {
    match input {
        CertInput::Text(t) => pem_scan(t@).len() as int,
        CertInput::Container(cs) => cs@.len() as int,
    }
}

/// The records are what the decoder gives for the input.
pub open spec fn decoded(input: CertInput, recs: Seq<CertRecord>) -> bool {
    match input {
        CertInput::Text(t) => pem_records(t@, recs),
        CertInput::Container(cs) => recs.len() == cs@.len() && forall|i: int|
            0 <= i < cs@.len() ==> pfx_record(#[trigger] cs@[i], recs[i]),
    }
}

/// The error is the one the decoder meets first for the input.
pub open spec fn decode_error_fits(input: CertInput, e: CerError) -> bool {
    match input {
        CertInput::Text(t) => pem_error_fits(t@, e),
        CertInput::Container(cs) => pfx_error_fits(cs@, e),
    }
}

impl CerPlugin {
    /// The commands that the plugin offers.
    pub fn commands(&self) -> (r: Vec<Cer>)
        ensures
            r@.len() == 1,
    {
        vec![Cer]
    }
}

} // verus!
