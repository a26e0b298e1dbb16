use attest_gate::errors::Error;
use attest_gate::payload::generate_payload;
use attest_gate::Contract;

fn owned(s: &str) -> String {
    s.to_string()
}

#[test]
fn owner_only_policy() {
    let mut c = Contract::init(owned("alice.near"));
    let r = c.approve_codehash(&owned("mallory.near"), owned("cafebabe"));
    assert_eq!(r, Err(Error::Unauthorized));
    let r = c.approve_codehash(&owned("alice.near"), owned("cafebabe"));
    assert_eq!(r, Ok(()));
    assert_eq!(c.require_owner(&owned("alice.near")), Ok(()));
    assert_eq!(c.require_owner(&owned("bob.near")), Err(Error::Unauthorized));
}

#[test]
fn unregistered_caller_is_not_found() {
    let c = Contract::init(owned("alice.near"));
    assert_eq!(c.require_approved_codehash(&owned("w.near")), Err(Error::NotFound));
    assert!(c.get_worker(&owned("w.near")).is_err());
    assert!(c.sign_trade(&owned("w.near"), &owned("hello")).is_err());
}

#[test]
fn registration_gates_signing() {
    let mut c = Contract::init(owned("alice.near"));
    c.approve_codehash(&owned("alice.near"), owned("cafebabe")).unwrap();

    // a worker registers with an approved code measurement
    let done = c
        .register_worker(owned("w.near"), owned("sum-1"), Ok(owned("cafebabe")))
        .unwrap();
    assert!(done);
    let w = c.get_worker(&owned("w.near")).unwrap();
    assert_eq!(w.checksum, owned("sum-1"));
    assert_eq!(w.codehash, owned("cafebabe"));
    assert_eq!(c.require_approved_codehash(&owned("w.near")), Ok(()));

    // its signing request carries the framed digest and the fixed path
    let req = match c.sign_trade(&owned("w.near"), &owned("hello")) {
        Ok(req) => req,
        Err(_) => panic!("gate refused an approved worker"),
    };
    let expected = generate_payload(&b"\x19Ethereum Signed Message:\n5hello".to_vec());
    assert_eq!(req.payload, expected);
    assert_eq!(req.path, owned("ethereum-1"));
    assert_eq!(req.key_version, 0);

    // an unregistered caller is refused with NotFound
    let r = c.sign_trade(&owned("u.near"), &owned("hello"));
    assert_eq!(r.err(), Some(Error::NotFound));

    // an empty message is refused after authorization
    let r = c.sign_trade(&owned("w.near"), &owned(""));
    assert_eq!(r.err(), Some(Error::InvalidArgument));
}

#[test]
fn reregistration_replaces_the_record() {
    let mut c = Contract::init(owned("alice.near"));
    c.approve_codehash(&owned("alice.near"), owned("cafebabe")).unwrap();
    c.register_worker(owned("w.near"), owned("sum-1"), Ok(owned("cafebabe"))).unwrap();

    // re-registering with an unapproved measurement replaces the record
    c.register_worker(owned("w.near"), owned("sum-2"), Ok(owned("deadbeef"))).unwrap();
    let w = c.get_worker(&owned("w.near")).unwrap();
    assert_eq!(w.checksum, owned("sum-2"));
    assert_eq!(w.codehash, owned("deadbeef"));

    // and authorization now refuses the worker
    assert_eq!(c.require_approved_codehash(&owned("w.near")), Err(Error::Unauthorized));
    let r = c.sign_trade(&owned("w.near"), &owned("hello"));
    assert_eq!(r.err(), Some(Error::Unauthorized));
}

#[test]
fn failed_resolution_changes_nothing() {
    let mut c = Contract::init(owned("alice.near"));
    c.approve_codehash(&owned("alice.near"), owned("cafebabe")).unwrap();
    c.register_worker(owned("w.near"), owned("sum-1"), Ok(owned("cafebabe"))).unwrap();

    // a failed verification is returned as is and alters no record
    let r = c.register_worker(owned("w.near"), owned("sum-2"), Err(Error::VerificationFailure));
    assert_eq!(r, Err(Error::VerificationFailure));
    let w = c.get_worker(&owned("w.near")).unwrap();
    assert_eq!(w.checksum, owned("sum-1"));
    assert_eq!(w.codehash, owned("cafebabe"));
    assert_eq!(c.require_approved_codehash(&owned("w.near")), Ok(()));

    // a failed resolution for a fresh caller creates no record
    let r = c.register_worker(owned("v.near"), owned("sum-3"), Err(Error::UnknownMeasurement));
    assert_eq!(r, Err(Error::UnknownMeasurement));
    assert!(c.get_worker(&owned("v.near")).is_err());
}

#[test]
fn empty_resolved_codehash_is_rejected() {
    let mut c = Contract::init(owned("alice.near"));
    c.approve_codehash(&owned("alice.near"), owned("cafebabe")).unwrap();
    c.register_worker(owned("w.near"), owned("sum-1"), Ok(owned("cafebabe"))).unwrap();

    // an empty identifier is no identifier: rejected, nothing stored
    let r = c.register_worker(owned("w.near"), owned("sum-2"), Ok(owned("")));
    assert_eq!(r, Err(Error::UnknownMeasurement));
    let w = c.get_worker(&owned("w.near")).unwrap();
    assert_eq!(w.checksum, owned("sum-1"));
    assert_eq!(w.codehash, owned("cafebabe"));
    let r = c.register_worker(owned("v.near"), owned("sum-3"), Ok(owned("")));
    assert_eq!(r, Err(Error::UnknownMeasurement));
    assert!(c.get_worker(&owned("v.near")).is_err());
}

#[test]
fn approving_twice_keeps_one_entry() {
    let mut c = Contract::init(owned("alice.near"));
    c.approve_codehash(&owned("alice.near"), owned("cafebabe")).unwrap();
    c.approve_codehash(&owned("alice.near"), owned("cafebabe")).unwrap();
    c.register_worker(owned("w.near"), owned("sum-1"), Ok(owned("cafebabe"))).unwrap();
    assert_eq!(c.require_approved_codehash(&owned("w.near")), Ok(()));
}

#[test]
fn derivation_path_starts_empty() {
    let c = Contract::init(owned("alice.near"));
    assert_eq!(c.get_derivation_path(), None);
}

#[test]
fn error_messages_name_the_failure() {
    assert_eq!(Error::NotFound.message(), "no worker is registered for the caller");
    assert_eq!(Error::Unauthorized.message(), "caller is not authorized");
    assert_eq!(Error::InvalidArgument.message(), "message cannot be empty");
}
