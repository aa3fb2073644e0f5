//! Why an instruction was rejected.

use vstd::prelude::*;

verus! {

/// The constraint that a rejected instruction violated. A rejected
/// instruction leaves the ledger as it was.
#[derive(Clone, Copy, Debug, PartialEq, Eq, Structural)]
pub enum EscrowError {
    /// A party that has to authorize the instruction did not sign it.
    AccountNotSigner,
    /// A token account is not owned by the party declared as its authority.
    TokenOwnerMismatch,
    /// A declared program is not the program that the instruction needs.
    InvalidProgramId,
    /// An address that has to hold a mint, a token account or an offer
    /// holds no data.
    AccountNotInitialized,
    /// An account holds data of another kind than the instruction expects.
    InvalidAccountData,
    /// A mint, a token account or an offer is owned by another program than
    /// the declared one.
    AccountOwnedByWrongProgram,
    /// A token account holds another mint than the declared one.
    TokenMintMismatch,
    /// A token account does not live at the address derived for its owner
    /// and mint.
    NotAssociatedTokenAccount,
    /// The offer account does not live at the address derived for its maker
    /// and id.
    SeedsMismatch,
    /// No bump seed yields a program-derived address for the seeds.
    NoViableBump,
    /// The offer account already holds a saved offer; an offer is written
    /// once.
    OfferAlreadySaved,
    /// The address at which an account is to be created already holds data.
    AddressInUse,
    /// The payer cannot afford the account that is to be created.
    InsufficientPayerFunds,
    /// The source token account holds less than the amount to move.
    InsufficientFunds,
    /// The decimals stated for a transfer are not those of the mint.
    DecimalsMismatch,
    /// The destination balance would exceed what a token account can hold.
    Overflow,
}

} // verus!
