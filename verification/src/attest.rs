//! Attestation verification: from a hexadecimal quote to the hexadecimal
//! measurement register that identifies the worker's code.
//!
//! The cryptographic verification of the quote against its collateral is
//! the business of the `dcap-qvl` crate.  It is deterministic in the
//! quote, the collateral and the reference time — the trust root and the
//! crypto backend are compile-time constants — so its outcome is consumed
//! through a named result over the collateral's plain-value form, and the
//! whole step from quote text to measurement text has an exact contract;
//! everything around the call — decoding the quote, extracting and
//! encoding the measurement — is verified.
use vstd::prelude::*;

use crate::errors::Error;
use crate::hexcodec::hex_bytes_of;
use crate::hexcodec::hex_of;
use crate::hexcodec::is_hex_str;
use crate::hexcodec::measurement_hex;
use crate::hexcodec::quote_bytes;

verus! {

/// The certificate and metadata bundle a quote is verified against, held
/// as plain values: issuer chains and signed TCB and QE-identity
/// documents with their signatures.  The host hands it in; the library
/// passes it, field for field, to the verifier.
pub struct Collateral {
    pub pck_crl_issuer_chain: String,
    pub root_ca_crl: Vec<u8>,
    pub pck_crl: Vec<u8>,
    pub tcb_info_issuer_chain: String,
    pub tcb_info: String,
    pub tcb_info_signature: Vec<u8>,
    pub qe_identity_issuer_chain: String,
    pub qe_identity: String,
    pub qe_identity_signature: Vec<u8>,
    pub pck_certificate_chain: Option<String>,
}

/// The mathematical value of a [`Collateral`]: every field as a character
/// or byte sequence.
pub ghost struct CollateralView {
    pub pck_crl_issuer_chain: Seq<char>,
    pub root_ca_crl: Seq<u8>,
    pub pck_crl: Seq<u8>,
    pub tcb_info_issuer_chain: Seq<char>,
    pub tcb_info: Seq<char>,
    pub tcb_info_signature: Seq<u8>,
    pub qe_identity_issuer_chain: Seq<char>,
    pub qe_identity: Seq<char>,
    pub qe_identity_signature: Seq<u8>,
    pub pck_certificate_chain: Option<Seq<char>>,
}

impl View for Collateral {
    type V = CollateralView;

    open spec fn view(&self) -> CollateralView {
        CollateralView {
            pck_crl_issuer_chain: self.pck_crl_issuer_chain@,
            root_ca_crl: self.root_ca_crl@,
            pck_crl: self.pck_crl@,
            tcb_info_issuer_chain: self.tcb_info_issuer_chain@,
            tcb_info: self.tcb_info@,
            tcb_info_signature: self.tcb_info_signature@,
            qe_identity_issuer_chain: self.qe_identity_issuer_chain@,
            qe_identity: self.qe_identity@,
            qe_identity_signature: self.qe_identity_signature@,
            pck_certificate_chain: match self.pck_certificate_chain {
                Some(c) => Some(c@),
                None => None,
            },
        }
    }
}

/// What verifying `quote` against `collateral` at time `now_seconds`
/// yields: the verified report's fourth runtime measurement register, or
/// nothing when the quote does not verify or the report carries no such
/// register.  The verifier is deterministic in these three arguments, so
/// the outcome is a function of them alone.
pub uninterp spec fn verified_rtmr3_of(
    quote: Seq<u8>,
    collateral: CollateralView,
    now_seconds: u64,
) -> Option<Seq<u8>>;

/// Relies on dcap_qvl::verify::verify — deterministic in (quote,
/// collateral, time); its trust root and crypto backend are compile-time
/// constants — and on the report's fourth runtime measurement register
/// being 48 bytes.
#[verifier::external_body]
fn dcap_verify_rtmr3(raw_quote: &Vec<u8>, collateral: &Collateral, now_seconds: u64) -> (r:
    Option<Vec<u8>>)
    ensures
        match r {
            Some(m) => verified_rtmr3_of(raw_quote@, collateral@, now_seconds) == Some(m@)
                && m@.len() == 48,
            None => verified_rtmr3_of(raw_quote@, collateral@, now_seconds) is None,
        },
{
    let c = dcap_qvl::QuoteCollateralV3 {
        pck_crl_issuer_chain: collateral.pck_crl_issuer_chain.clone(),
        root_ca_crl: collateral.root_ca_crl.clone(),
        pck_crl: collateral.pck_crl.clone(),
        tcb_info_issuer_chain: collateral.tcb_info_issuer_chain.clone(),
        tcb_info: collateral.tcb_info.clone(),
        tcb_info_signature: collateral.tcb_info_signature.clone(),
        qe_identity_issuer_chain: collateral.qe_identity_issuer_chain.clone(),
        qe_identity: collateral.qe_identity.clone(),
        qe_identity_signature: collateral.qe_identity_signature.clone(),
        pck_certificate_chain: collateral.pck_certificate_chain.clone(),
    };
    let report = dcap_qvl::verify::verify(raw_quote.as_slice(), &c, now_seconds).ok()?;
    Some(report.report.as_td10()?.rt_mr3.to_vec())
}

/// What [`attested_measurement`] returns: `VerificationFailure` when
/// `quote_hex` is not hexadecimal text or the quote does not yield a
/// measurement register, and otherwise the register's lower-case
/// hexadecimal text.
pub open spec fn measurement_of(
    quote_hex: Seq<char>,
    collateral: CollateralView,
    now_seconds: u64,
) -> Result<Seq<char>, Error> {
    if !is_hex_str(quote_hex) {
        Err(Error::VerificationFailure)
    } else {
        match verified_rtmr3_of(hex_bytes_of(quote_hex), collateral, now_seconds) {
            Some(register) => Ok(hex_of(register)),
            None => Err(Error::VerificationFailure),
        }
    }
}

/// Verifies the attestation quote `quote_hex` against `collateral` at the
/// reference time `now_seconds`, and returns the hexadecimal text of the
/// report's fourth runtime measurement register.
///
/// Fails with [`Error::VerificationFailure`] — and only with it — when
/// the quote is not hexadecimal text, when the quote does not verify, or
/// when the verified report carries no such register.  No contract state
/// is read or written.
pub fn attested_measurement(
    quote_hex: &String,
    collateral: &Collateral,
    now_seconds: u64,
) -> (r: Result<String, Error>)
    ensures
        match r {
            Ok(m) => measurement_of(quote_hex@, collateral@, now_seconds) == Ok::<
                Seq<char>,
                Error,
            >(m@) && m@.len() == 96,
            Err(e) => measurement_of(quote_hex@, collateral@, now_seconds) == Err::<
                Seq<char>,
                Error,
            >(e),
        },
{
    let quote = match quote_bytes(quote_hex) {
        Ok(q) => q,
        Err(e) => {
            return Err(e);
        },
    };
    match dcap_verify_rtmr3(&quote, collateral, now_seconds) {
        Some(register) => Ok(measurement_hex(&register)),
        None => Err(Error::VerificationFailure),
    }
}

} // verus!
