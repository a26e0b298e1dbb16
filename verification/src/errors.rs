//! The error taxonomy of the library.  Every failing call reports exactly
//! one of these; a failing call leaves previously committed state untouched.
use vstd::prelude::*;

verus! {

/// Why a call was rejected.
#[derive(Clone, Copy, Debug, PartialEq, Eq, Structural)]
pub enum Error {
    /// The attestation quote, collateral, or reference time did not verify.
    VerificationFailure,
    /// The measurement could not be mapped to a code-measurement identifier.
    UnknownMeasurement,
    /// The caller has no registered worker identity.
    NotFound,
    /// The caller is not the owner, or its code measurement is not approved.
    Unauthorized,
    /// The caller supplied an empty message to sign.
    InvalidArgument,
}

impl Error {
    /// A short human-readable description of the error.
    pub fn message(&self) -> (r: &'static str)
        ensures
            r@ == self.message_spec(),
    {
        match self {
            Error::VerificationFailure => "attestation report is not verified",
            Error::UnknownMeasurement => "measurement is not recognized in the TCB metadata",
            Error::NotFound => "no worker is registered for the caller",
            Error::Unauthorized => "caller is not authorized",
            Error::InvalidArgument => "message cannot be empty",
        }
    }

    /// What [`Error::message`] returns, as a character sequence.
    pub open spec fn message_spec(&self) -> Seq<char> {
        match self {
            Error::VerificationFailure => "attestation report is not verified"@,
            Error::UnknownMeasurement => "measurement is not recognized in the TCB metadata"@,
            Error::NotFound => "no worker is registered for the caller"@,
            Error::Unauthorized => "caller is not authorized"@,
            Error::InvalidArgument => "message cannot be empty"@,
        }
    }
}

} // verus!
