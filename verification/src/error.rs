//! The ways in which a transition is refused.

use vstd::prelude::*;

verus! {

/// Why a transition was refused. Every refusal is final: nothing is retried,
/// and no action is handed out together with an error.
#[derive(Clone, Copy, PartialEq, Eq, Structural, Debug)]
pub enum ProgramError {
    /// The account list does not have the fixed length the transition asks for.
    NotEnoughAccountKeys,
    /// The maker has not signed.
    MissingRequiredSignature,
    /// An account is not owned by the program that has to own it.
    InvalidAccountOwner,
    /// An account's data has the wrong length, or an account's address is not
    /// the one that its seeds derive, or a service account is not the expected
    /// service.
    InvalidAccountData,
    /// The payload has the wrong length or asks for a deposit of nothing.
    InvalidInstructionData,
    /// The host found no address for the seeds at hand.
    InvalidSeeds,
    /// The slot for a new escrow record already holds one.
    AccountAlreadyInitialized,
}

} // verus!
