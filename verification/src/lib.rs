//! Attestation-gated signing registry.
//!
//! A worker process proves, through a hardware attestation quote, that it
//! runs a specific code measurement.  A successful proof is recorded as a
//! durable worker identity; an owner-controlled policy set of approved code
//! measurements then gates a deterministic signing request built from
//! caller-supplied data.
//!
//! The contract state and every decision over it live here; the host
//! environment supplies the caller identity, the clock and the transport
//! of the signing request, and the collateral and code-measurement
//! resolvers supply their results, all as plain values.
use vstd::prelude::*;
use vstd::string::StrSliceExecFns;

pub mod attest;
pub mod errors;
pub mod hexcodec;
pub mod payload;
pub mod store;

use crate::errors::Error;
use crate::payload::derive_payload;
use crate::payload::payload_of;
use crate::store::CodehashSet;
use crate::store::WorkerTable;
use vstd::utf8::encode_utf8;

verus! {

/// The fixed derivation path of the remote signer.
pub open spec fn mpc_path() -> Seq<char> {
    "ethereum-1"@
}

/// The fixed key version of the remote signer.
pub open spec fn mpc_key_version() -> u32 {
    0u32
}

/// A worker identity: an opaque caller-supplied checksum for the worker's
/// binary artifact, and the code-measurement identifier derived from its
/// attestation.
pub struct Worker {
    pub checksum: String,
    pub codehash: String,
}

/// The mathematical value of a [`Worker`]: both fields as character
/// sequences.
pub ghost struct WorkerView {
    pub checksum: Seq<char>,
    pub codehash: Seq<char>,
}

impl View for Worker {
    type V = WorkerView;

    open spec fn view(&self) -> WorkerView {
        WorkerView { checksum: self.checksum@, codehash: self.codehash@ }
    }
}

impl Clone for Worker {
    fn clone(&self) -> (r: Worker)
        ensures
            r == *self,
    {
        Worker { checksum: self.checksum.clone(), codehash: self.codehash.clone() }
    }
}

/// One signing request for the remote signer: the derived 32-byte payload,
/// the fixed derivation path, and the fixed key version.  Transient: built
/// fresh for each signing call, never persisted.
pub struct SignRequest {
    pub payload: [u8; 32],
    pub path: String,
    pub key_version: u32,
}

impl Clone for SignRequest {
    fn clone(&self) -> (r: SignRequest)
        ensures
            r == *self,
    {
        SignRequest {
            payload: self.payload,
            path: self.path.clone(),
            key_version: self.key_version,
        }
    }
}

/// The durable contract state: the fixed owner, an optional derivation
/// path, the owner-approved code measurements, and the registered worker
/// identities keyed by caller identity.
pub struct Contract {
    owner_id: String,
    derivation_path: Option<String>,
    approved_codehashes: CodehashSet,
    worker_by_account_id: WorkerTable,
}

/// The mathematical value of a [`Contract`].
pub ghost struct ContractView {
    pub owner: Seq<char>,
    pub derivation_path: Option<Seq<char>>,
    pub approved: Set<Seq<char>>,
    pub workers: Map<Seq<char>, WorkerView>,
}

impl View for Contract {
    type V = ContractView;

    closed spec fn view(&self) -> ContractView {
        ContractView {
            owner: self.owner_id@,
            derivation_path: match self.derivation_path {
                Some(p) => Some(p@),
                None => None,
            },
            approved: self.approved_codehashes@,
            workers: self.worker_by_account_id@,
        }
    }
}

/// The authorization gate's decision for `caller`: `NotFound` for an
/// unregistered caller, `Unauthorized` for a registered caller whose code
/// measurement is not approved, and success otherwise.
pub open spec fn gate_spec(
    workers: Map<Seq<char>, WorkerView>,
    approved: Set<Seq<char>>,
    caller: Seq<char>,
) -> Result<(), Error> {
    if !workers.contains_key(caller) {
        Err(Error::NotFound)
    } else if !approved.contains(workers[caller].codehash) {
        Err(Error::Unauthorized)
    } else {
        Ok(())
    }
}

/// The signing call's decision for `caller` and the message bytes
/// `message`: the authorization decision first, then `InvalidArgument` for an
/// empty message.
pub open spec fn sign_gate_spec(
    workers: Map<Seq<char>, WorkerView>,
    approved: Set<Seq<char>>,
    caller: Seq<char>,
    message: Seq<u8>,
) -> Result<(), Error> {
    match gate_spec(workers, approved, caller) {
        Err(e) => Err(e),
        Ok(_) => if message.len() == 0 {
            Err(Error::InvalidArgument)
        } else {
            Ok(())
        },
    }
}

/// The registry invariant of the data model: every recorded worker
/// identity carries a non-empty code measurement.
pub open spec fn registry_wf(workers: Map<Seq<char>, WorkerView>) -> bool {
    forall|k: Seq<char>| #[trigger] workers.contains_key(k) ==> workers[k].codehash.len() > 0
}

impl Contract {
    /// The state's internal invariant, established by [`Contract::init`]
    /// and preserved by every method.
    pub closed spec fn wf(&self) -> bool {
        self.approved_codehashes.wf() && self.worker_by_account_id.wf() && registry_wf(
            self.worker_by_account_id@,
        )
    }

    /// A fresh contract: `owner_id` fixed as the owner, no derivation
    /// path, no approved code measurement, no registered worker.
    pub fn init(owner_id: String) -> (c: Contract)
        ensures
            c.wf(),
            c@.owner == owner_id@,
            c@.derivation_path is None,
            c@.approved == Set::<Seq<char>>::empty(),
            c@.workers == Map::<Seq<char>, WorkerView>::empty(),
    {
        Contract {
            owner_id,
            derivation_path: None,
            approved_codehashes: CodehashSet::new(),
            worker_by_account_id: WorkerTable::new(),
        }
    }

    /// Succeeds exactly when `caller` is the fixed owner; otherwise fails
    /// with [`Error::Unauthorized`].
    pub fn require_owner(&self, caller: &String) -> (r: Result<(), Error>)
        ensures
            r == (if caller@ == self@.owner {
                Ok::<(), Error>(())
            } else {
                Err::<(), Error>(Error::Unauthorized)
            }),
    {
        if caller.eq(&self.owner_id) {
            Ok(())
        } else {
            Err(Error::Unauthorized)
        }
    }

    /// Approves `codehash` for sensitive operations.
    ///
    /// Only the owner mutates the policy set: invoked by the owner it
    /// inserts `codehash` (a no-op if already present) and changes nothing
    /// else; invoked by anyone else it fails with [`Error::Unauthorized`]
    /// and the whole state is unchanged.
    pub fn approve_codehash(&mut self, caller: &String, codehash: String) -> (r: Result<
        (),
        Error,
    >)
        requires
            old(self).wf(),
        ensures
            final(self).wf(),
            caller@ == old(self)@.owner ==> r == Ok::<(), Error>(()) && final(self)@.approved
                == old(self)@.approved.insert(codehash@) && final(self)@.owner == old(self)@.owner
                && final(self)@.workers == old(self)@.workers && final(self)@.derivation_path
                == old(self)@.derivation_path,
            caller@ != old(self)@.owner ==> r == Err::<(), Error>(Error::Unauthorized)
                && *final(self) == *old(self),
    {
        match self.require_owner(caller) {
            Ok(_) => {
                self.approved_codehashes.insert(codehash);
                Ok(())
            },
            Err(e) => Err(e),
        }
    }

    /// Records the outcome of a registration attempt for `caller`.
    ///
    /// The attestation and resolution steps happen outside the contract
    /// state; their outcome arrives as `resolution`.  A successful
    /// resolution upserts the worker identity under `caller` — replacing
    /// any prior record — and changes nothing else, so every entry keeps
    /// a non-empty code measurement; an empty resolved identifier is no
    /// identifier and is rejected with [`Error::UnknownMeasurement`]; a
    /// failed resolution is returned as is.  On every failure the whole
    /// state is unchanged, so no partial registration is ever observable.
    pub fn register_worker(
        &mut self,
        caller: String,
        checksum: String,
        resolution: Result<String, Error>,
    ) -> (r: Result<bool, Error>)
        requires
            old(self).wf(),
        ensures
            final(self).wf(),
            match resolution {
                Ok(codehash) => {
                    if codehash@.len() == 0 {
                        r == Err::<bool, Error>(Error::UnknownMeasurement) && *final(self)
                            == *old(self)
                    } else {
                        r == Ok::<bool, Error>(true) && final(self)@.workers
                            == old(self)@.workers.insert(
                            caller@,
                            (WorkerView { checksum: checksum@, codehash: codehash@ }),
                        ) && final(self)@.approved == old(self)@.approved
                            && final(self)@.owner == old(self)@.owner
                            && final(self)@.derivation_path == old(self)@.derivation_path
                    }
                },
                Err(e) => r == Err::<bool, Error>(e) && *final(self) == *old(self),
            },
    {
        match resolution {
            Ok(codehash) => {
                if codehash.as_str().is_empty() {
                    return Err(Error::UnknownMeasurement);
                }
                proof {
                    lemma_registry_invariant(
                        old(self)@.workers,
                        caller@,
                        (WorkerView { checksum: checksum@, codehash: codehash@ }),
                    );
                }
                self.worker_by_account_id.insert(caller, Worker { checksum, codehash });
                Ok(true)
            },
            Err(e) => Err(e),
        }
    }

    /// The worker identity registered for `account_id`, or
    /// [`Error::NotFound`] if it has never registered.
    pub fn get_worker(&self, account_id: &String) -> (r: Result<Worker, Error>)
        requires
            self.wf(),
        ensures
            match r {
                Ok(w) => self@.workers.contains_key(account_id@)
                    && w@ == self@.workers[account_id@] && w@.codehash.len() > 0,
                Err(e) => !self@.workers.contains_key(account_id@) && e == Error::NotFound,
            },
    {
        match self.worker_by_account_id.get(account_id) {
            Some(w) => Ok(w.clone()),
            None => Err(Error::NotFound),
        }
    }

    /// The authorization gate: succeeds exactly when `caller` has a
    /// registered worker identity whose code measurement is currently
    /// approved.  A pure check, invoked afresh by every sensitive
    /// operation; no side effects.
    pub fn require_approved_codehash(&self, caller: &String) -> (r: Result<(), Error>)
        requires
            self.wf(),
        ensures
            r == gate_spec(self@.workers, self@.approved, caller@),
    {
        match self.worker_by_account_id.get(caller) {
            None => Err(Error::NotFound),
            Some(worker) => {
                if self.approved_codehashes.contains(&worker.codehash) {
                    Ok(())
                } else {
                    Err(Error::Unauthorized)
                }
            },
        }
    }

    /// Builds the signing request for `quote` on behalf of `caller`.
    ///
    /// The authorization gate is checked first — `NotFound` for an
    /// unregistered caller, `Unauthorized` for an unapproved code
    /// measurement — then an empty message fails with `InvalidArgument`.
    /// On success the request carries the deterministic payload derived
    /// from the message bytes, the fixed derivation path and the fixed key
    /// version; dispatching it to the remote signer is the host's affair.
    pub fn sign_trade(&self, caller: &String, quote: &String) -> (r: Result<SignRequest, Error>)
        requires
            self.wf(),
        ensures
            match r {
                Ok(req) => sign_gate_spec(self@.workers, self@.approved, caller@, encode_utf8(
                    quote@,
                )) == Ok::<(), Error>(()) && req.payload@ == payload_of(encode_utf8(quote@))
                    && req.path@ == mpc_path() && req.key_version == mpc_key_version(),
                Err(e) => sign_gate_spec(self@.workers, self@.approved, caller@, encode_utf8(
                    quote@,
                )) == Err::<(), Error>(e),
            },
    {
        match self.require_approved_codehash(caller) {
            Err(e) => {
                return Err(e);
            },
            Ok(_) => {},
        }
        let message = quote.as_str().as_bytes_vec();
        match derive_payload(&message) {
            Err(e) => Err(e),
            Ok(payload) => Ok(
                SignRequest { payload, path: "ethereum-1".to_owned(), key_version: 0 },
            ),
        }
    }

    /// The optional derivation path held in the state.
    pub fn get_derivation_path(&self) -> (r: Option<String>)
        ensures
            match r {
                Some(p) => self@.derivation_path == Some(p@),
                None => self@.derivation_path is None,
            },
    {
        match &self.derivation_path {
            Some(p) => Some(p.clone()),
            None => None,
        }
    }
}

/// Registration is idempotent per caller and not additive: registering
/// twice for the same caller leaves exactly one worker identity for it,
/// the second one.
pub proof fn lemma_register_replaces(
    workers: Map<Seq<char>, WorkerView>,
    caller: Seq<char>,
    first: WorkerView,
    second: WorkerView,
)
    ensures
        workers.insert(caller, first).insert(caller, second) == workers.insert(caller, second),
        workers.insert(caller, first).insert(caller, second)[caller] == second,
{
    assert(workers.insert(caller, first).insert(caller, second) =~= workers.insert(
        caller,
        second,
    ));
}

/// Registration preserves the registry invariant: when every recorded
/// worker identity carries a non-empty code measurement and the newly
/// stored one is non-empty too, then every entry of the updated registry
/// carries a non-empty code measurement.
pub proof fn lemma_registry_invariant(
    workers: Map<Seq<char>, WorkerView>,
    caller: Seq<char>,
    worker: WorkerView,
)
    requires
        registry_wf(workers),
        worker.codehash.len() > 0,
    ensures
        registry_wf(workers.insert(caller, worker)),
{
    assert forall|k: Seq<char>| #[trigger] workers.insert(caller, worker).contains_key(k)
        implies workers.insert(caller, worker)[k].codehash.len() > 0 by {
        if k != caller {
            assert(workers.contains_key(k));
        }
    }
}

/// Authorization is decided correctly: it succeeds exactly for a caller with a registered
/// worker identity whose code measurement is approved, fails with
/// `NotFound` exactly for an unregistered caller, and fails with
/// `Unauthorized` exactly for a registered but unapproved one.  A signing
/// call succeeds exactly when authorization succeeds and the message is
/// non-empty.
pub proof fn lemma_gate_correctness(
    workers: Map<Seq<char>, WorkerView>,
    approved: Set<Seq<char>>,
    caller: Seq<char>,
    message: Seq<u8>,
)
    ensures
        gate_spec(workers, approved, caller) == Ok::<(), Error>(()) <==> workers.contains_key(
            caller,
        ) && approved.contains(workers[caller].codehash),
        gate_spec(workers, approved, caller) == Err::<(), Error>(Error::NotFound)
            <==> !workers.contains_key(caller),
        gate_spec(workers, approved, caller) == Err::<(), Error>(Error::Unauthorized)
            <==> workers.contains_key(caller) && !approved.contains(workers[caller].codehash),
        sign_gate_spec(workers, approved, caller, message) == Ok::<(), Error>(())
            <==> workers.contains_key(caller) && approved.contains(workers[caller].codehash)
            && message.len() > 0,
{
}

} // verus!
