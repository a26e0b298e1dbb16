use attest_gate::attest::attested_measurement;
use attest_gate::attest::Collateral;
use attest_gate::errors::Error;
use attest_gate::hexcodec::measurement_hex;
use attest_gate::hexcodec::quote_bytes;

#[test]
fn quote_bytes_decodes_pairs() {
    let b = quote_bytes(&"cafe".to_string()).unwrap();
    assert_eq!(b, vec![0xca, 0xfe]);
    let b = quote_bytes(&"CaFe00".to_string()).unwrap();
    assert_eq!(b, vec![0xca, 0xfe, 0x00]);
    let b = quote_bytes(&String::new()).unwrap();
    assert_eq!(b, Vec::<u8>::new());
}

#[test]
fn quote_bytes_refuses_malformed_text() {
    assert_eq!(quote_bytes(&"abc".to_string()).err(), Some(Error::VerificationFailure));
    assert_eq!(quote_bytes(&"zz".to_string()).err(), Some(Error::VerificationFailure));
    assert_eq!(quote_bytes(&"0x12".to_string()).err(), Some(Error::VerificationFailure));
}

#[test]
fn measurement_hex_is_lower_case_pairs() {
    let m = measurement_hex(&vec![0xCA, 0xFE, 0x00, 0x1B]);
    assert_eq!(m, "cafe001b");
    assert_eq!(measurement_hex(&Vec::new()), "");
}

#[test]
fn hex_round_trip() {
    let bytes: Vec<u8> = (0u8..=255).collect();
    let text = measurement_hex(&bytes);
    assert_eq!(quote_bytes(&text).unwrap(), bytes);
}

fn empty_collateral() -> Collateral {
    Collateral {
        pck_crl_issuer_chain: String::new(),
        root_ca_crl: Vec::new(),
        pck_crl: Vec::new(),
        tcb_info_issuer_chain: String::new(),
        tcb_info: String::new(),
        tcb_info_signature: Vec::new(),
        qe_identity_issuer_chain: String::new(),
        qe_identity: String::new(),
        qe_identity_signature: Vec::new(),
        pck_certificate_chain: None,
    }
}

#[test]
fn attestation_refuses_non_hex_quote() {
    let r = attested_measurement(&"not hex".to_string(), &empty_collateral(), 0);
    assert_eq!(r.err(), Some(Error::VerificationFailure));
}

#[test]
fn attestation_refuses_garbage_quote() {
    let r = attested_measurement(&"00112233".to_string(), &empty_collateral(), 0);
    assert_eq!(r.err(), Some(Error::VerificationFailure));
}
