//! Offer creation: the maker puts token A into a vault that the offer record
//! controls, and states how much of token B is wanted for it.

use crate::address::Address;
use crate::constraints::associated_token_created;
use crate::constraints::associated_token_refusal;
use crate::constraints::check_associated_token;
use crate::constraints::check_programs;
use crate::constraints::create_associated_token;
use crate::constraints::programs_refusal;
use crate::derivation::associated_token_address;
use crate::derivation::find_associated_token_address;
use crate::derivation::find_offer_address;
use crate::derivation::offer_address;
use crate::error::EscrowError;
use crate::ledger::Ledger;
use crate::ledger::LedgerState;
use crate::ledger::TransferChecked;
use crate::state::Account;
use crate::state::AccountData;
use crate::state::Offer;
use crate::state::Party;
use vstd::prelude::*;

verus! {

/// The bump seeds of the addresses that an offer creation derives.
#[derive(Clone, Copy, Debug, PartialEq, Eq)]
pub struct MakeOfferBumps {
    /// The bump seed of the offer's address.
    pub offer: u8,
}

/// The addresses that the accounts of an offer creation are held against,
/// each with its bump seed, or `None` where no bump seed yields one.
#[derive(Clone, Copy, Debug, PartialEq, Eq)]
pub struct MakeOfferAddresses {
    /// The address of the offer of the maker under the id.
    pub offer: Option<(Address, u8)>,
    /// The address of the maker's token account for mint A.
    pub maker_token_account_a: Option<(Address, u8)>,
    /// The address of the offer's token account for mint A.
    pub vault: Option<(Address, u8)>,
}

/// The accounts of an offer creation.
#[derive(Clone, Copy, Debug, PartialEq, Eq)]
pub struct MakeOffer {
    /// The escrow program, under which offer addresses are derived.
    pub program_id: Address,
    /// The maker, who signs and pays for the new accounts.
    pub maker: Party,
    pub token_mint_a: Address,
    pub token_mint_b: Address,
    /// The maker's token account for mint A, which the offered amount
    /// leaves.
    pub maker_token_account_a: Address,
    /// Where the offer record is created: the address derived from the
    /// maker and the id.
    pub offer: Address,
    /// Where the vault is created: the token account of the offer for
    /// mint A.
    pub vault: Address,
    pub associated_token_program: Address,
    pub token_program: Address,
    pub system_program: Address,
    pub bumps: MakeOfferBumps,
}

impl MakeOffer {
    /// The addresses derived for an offer under `id`: that of the offer from
    /// the maker and the id, that of the maker's token account from the
    /// maker and mint A, that of the vault from the offer and mint A.
    pub open spec fn derived(self, id: u64) -> MakeOfferAddresses {
        MakeOfferAddresses {
            offer: offer_address(self.program_id, self.maker.key, id),
            maker_token_account_a: associated_token_address(
                self.maker.key,
                self.token_mint_a,
                self.token_program,
            ),
            vault: associated_token_address(self.offer, self.token_mint_a, self.token_program),
        }
    }

    /// Why the accounts are refused before anything is created, if they are.
    /// The checks come in this order: the maker's signature, the programs,
    /// mint A, mint B, the maker's token account for mint A.
    pub open spec fn refusal(self, ledger: LedgerState, derived: MakeOfferAddresses) -> Option<
        EscrowError,
    > {
        let programs = programs_refusal(
            self.associated_token_program,
            self.token_program,
            self.system_program,
        );
        let mint_a = ledger.mint(self.token_program, self.token_mint_a);
        let mint_b = ledger.mint(self.token_program, self.token_mint_b);
        if !self.maker.is_signer {
            Some(EscrowError::AccountNotSigner)
        } else if programs is Some {
            programs
        } else if mint_a is Err {
            Some(mint_a->Err_0)
        } else if mint_b is Err {
            Some(mint_b->Err_0)
        } else {
            associated_token_refusal(
                ledger,
                self.token_program,
                self.maker_token_account_a,
                self.maker.key,
                self.token_mint_a,
                derived.maker_token_account_a,
            )
        }
    }

    /// The ledger after room for the offer has been created at the maker's
    /// cost, or why that was refused. The declared address and bump
    /// seed have to be the derived ones, and the address has to hold no data
    /// yet.
    pub open spec fn offer_created(
        self,
        ledger: LedgerState,
        derived: MakeOfferAddresses,
    ) -> Result<LedgerState, EscrowError> {
        if derived.offer is None {
            Err(EscrowError::NoViableBump)
        } else if derived.offer != Some((self.offer, self.bumps.offer)) {
            Err(EscrowError::SeedsMismatch)
        } else {
            ledger.create_account(
                self.maker,
                self.offer,
                ledger.offer_rent,
                self.program_id,
                AccountData::Allocated,
            )
        }
    }

    /// The ledger after the vault has been created, empty, at the maker's
    /// cost, or why that was refused. The vault is the token account of the
    /// offer for mint A.
    pub open spec fn vault_created(
        self,
        ledger: LedgerState,
        derived: MakeOfferAddresses,
    ) -> Result<LedgerState, EscrowError> {
        associated_token_created(
            ledger,
            self.maker,
            self.token_program,
            self.vault,
            self.offer,
            self.token_mint_a,
            derived.vault,
        )
    }

    /// The transfer that funds the vault.
    pub open spec fn spec_vault_transfer(&self) -> TransferChecked {
        TransferChecked {
            from: self.maker_token_account_a,
            mint: self.token_mint_a,
            to: self.vault,
            authority: self.maker,
        }
    }

    /// The ledger after `amount` of token A has moved from the maker into
    /// the vault, or why the transfer was refused. The transfer states the
    /// decimals that mint A records.
    pub open spec fn tokens_sent(self, ledger: LedgerState, amount: u64) -> Result<
        LedgerState,
        EscrowError,
    > {
        match ledger.mint(self.token_program, self.token_mint_a) {
            Err(e) => Err(e),
            Ok(mint) => ledger.transfer_checked(
                self.token_program,
                self.spec_vault_transfer(),
                amount,
                mint.decimals,
            ),
        }
    }

    /// The record of the offer made under `id` for `token_b_wanted_amount`.
    pub open spec fn spec_record(&self, id: u64, token_b_wanted_amount: u64) -> Offer {
        Offer {
            id,
            maker: self.maker.key,
            token_mint_a: self.token_mint_a,
            token_mint_b: self.token_mint_b,
            token_b_wanted_amount,
            bump: self.bumps.offer,
        }
    }

    /// The ledger after the offer has been written into its account, or why
    /// that was refused. The account has to be room for an offer, owned by
    /// the escrow program, into which none has been saved.
    pub open spec fn offer_saved(
        self,
        ledger: LedgerState,
        id: u64,
        token_b_wanted_amount: u64,
    ) -> Result<LedgerState, EscrowError> {
        if !ledger.holds_data(self.offer) {
            Err(EscrowError::AccountNotInitialized)
        } else if ledger.accounts[self.offer].program != self.program_id {
            Err(EscrowError::AccountOwnedByWrongProgram)
        } else if ledger.accounts[self.offer].data is Offer {
            Err(EscrowError::OfferAlreadySaved)
        } else if !(ledger.accounts[self.offer].data is Allocated) {
            Err(EscrowError::InvalidAccountData)
        } else {
            Ok(
                ledger.with_account(
                    self.offer,
                    Account {
                        data: AccountData::Offer(self.spec_record(id, token_b_wanted_amount)),
                        ..ledger.accounts[self.offer]
                    },
                ),
            )
        }
    }

    /// Offer creation as a whole, given the derived addresses: the ledger
    /// after it, or why it was refused. The accounts are checked, the offer
    /// account and the vault are created, the offered amount moves into the
    /// vault, and the offer is saved; the first refusal on the way is the
    /// result.
    pub open spec fn make_offer_with(
        self,
        ledger: LedgerState,
        id: u64,
        token_a_offered_amount: u64,
        token_b_wanted_amount: u64,
        derived: MakeOfferAddresses,
    ) -> Result<LedgerState, EscrowError> {
        if self.refusal(ledger, derived) is Some {
            Err(self.refusal(ledger, derived)->Some_0)
        } else {
            match self.offer_created(ledger, derived) {
                Err(e) => Err(e),
                Ok(with_offer) => match self.vault_created(with_offer, derived) {
                    Err(e) => Err(e),
                    Ok(with_vault) => match self.tokens_sent(with_vault, token_a_offered_amount) {
                        Err(e) => Err(e),
                        Ok(funded) => self.offer_saved(funded, id, token_b_wanted_amount),
                    },
                },
            }
        }
    }

    /// Offer creation as a whole: the ledger after it, or why it was
    /// refused.
    pub open spec fn make_offer(
        self,
        ledger: LedgerState,
        id: u64,
        token_a_offered_amount: u64,
        token_b_wanted_amount: u64,
    ) -> Result<LedgerState, EscrowError> {
        self.make_offer_with(
            ledger,
            id,
            token_a_offered_amount,
            token_b_wanted_amount,
            self.derived(id),
        )
    }

    /// Derives the addresses for an offer under `id`.
    pub fn derive(&self, id: u64) -> (derived: MakeOfferAddresses)
        ensures
            derived == self.derived(id),
    {
        MakeOfferAddresses {
            offer: find_offer_address(&self.program_id, &self.maker.key, id),
            maker_token_account_a: find_associated_token_address(
                &self.maker.key,
                &self.token_mint_a,
                &self.token_program,
            ),
            vault: find_associated_token_address(
                &self.offer,
                &self.token_mint_a,
                &self.token_program,
            ),
        }
    }

    /// The record of the offer made under `id` for `token_b_wanted_amount`.
    #[verifier::when_used_as_spec(spec_record)]
    pub fn record(&self, id: u64, token_b_wanted_amount: u64) -> (offer: Offer)
        ensures
            offer == self.spec_record(id, token_b_wanted_amount),
    {
        Offer {
            id,
            maker: self.maker.key,
            token_mint_a: self.token_mint_a,
            token_mint_b: self.token_mint_b,
            token_b_wanted_amount,
            bump: self.bumps.offer,
        }
    }

    /// The transfer that funds the vault.
    #[verifier::when_used_as_spec(spec_vault_transfer)]
    pub fn vault_transfer(&self) -> (accounts: TransferChecked)
        ensures
            accounts == self.spec_vault_transfer(),
    {
        TransferChecked {
            from: self.maker_token_account_a,
            mint: self.token_mint_a,
            to: self.vault,
            authority: self.maker,
        }
    }

    /// Checks the accounts that have to exist before anything is created.
    pub fn check(&self, ledger: &Ledger, derived: &MakeOfferAddresses) -> (checked: Result<
        (),
        EscrowError,
    >)
        requires
            ledger.wf(),
        ensures
            match self.refusal(ledger@, *derived) {
                Some(e) => checked == Err::<(), EscrowError>(e),
                None => checked is Ok,
            },
    {
        if !self.maker.is_signer {
            return Err(EscrowError::AccountNotSigner);
        }
        match check_programs(
            &self.associated_token_program,
            &self.token_program,
            &self.system_program,
        ) {
            Ok(()) => {},
            Err(e) => {
                return Err(e);
            },
        }
        match ledger.mint(&self.token_program, &self.token_mint_a) {
            Ok(_) => {},
            Err(e) => {
                return Err(e);
            },
        }
        match ledger.mint(&self.token_program, &self.token_mint_b) {
            Ok(_) => {},
            Err(e) => {
                return Err(e);
            },
        }
        check_associated_token(
            ledger,
            &self.token_program,
            &self.maker_token_account_a,
            &self.maker.key,
            &self.token_mint_a,
            derived.maker_token_account_a,
        )
    }

    /// Creates room for the offer at the maker's cost. A refused creation
    /// changes nothing.
    pub fn create_offer(&self, ledger: &mut Ledger, derived: &MakeOfferAddresses) -> (done: Result<
        (),
        EscrowError,
    >)
        requires
            old(ledger).wf(),
        ensures
            final(ledger).wf(),
            match self.offer_created(old(ledger)@, *derived) {
                Ok(after) => done is Ok && final(ledger)@ == after,
                Err(e) => done == Err::<(), EscrowError>(e) && final(ledger)@ == old(ledger)@,
            },
    {
        match derived.offer {
            None => Err(EscrowError::NoViableBump),
            Some((address, bump)) => {
                if address != self.offer || bump != self.bumps.offer {
                    Err(EscrowError::SeedsMismatch)
                } else {
                    let rent = ledger.offer_rent();
                    ledger.create_account(
                        &self.maker,
                        &self.offer,
                        rent,
                        &self.program_id,
                        AccountData::Allocated,
                    )
                }
            },
        }
    }

    /// Creates the vault, empty, at the maker's cost. A refused creation
    /// changes nothing.
    pub fn create_vault(&self, ledger: &mut Ledger, derived: &MakeOfferAddresses) -> (done: Result<
        (),
        EscrowError,
    >)
        requires
            old(ledger).wf(),
        ensures
            final(ledger).wf(),
            match self.vault_created(old(ledger)@, *derived) {
                Ok(after) => done is Ok && final(ledger)@ == after,
                Err(e) => done == Err::<(), EscrowError>(e) && final(ledger)@ == old(ledger)@,
            },
    {
        create_associated_token(
            ledger,
            &self.maker,
            &self.token_program,
            &self.vault,
            &self.offer,
            &self.token_mint_a,
            derived.vault,
        )
    }
}

/// Moves `token_a_offered_amount` of token A from the maker's token account
/// into the vault, on the maker's authority. A refused transfer changes
/// nothing.
pub fn send_offered_tokens_to_vault(
    context: &MakeOffer,
    ledger: &mut Ledger,
    token_a_offered_amount: u64,
) -> (done: Result<(), EscrowError>)
    requires
        old(ledger).wf(),
    ensures
        final(ledger).wf(),
        match context.tokens_sent(old(ledger)@, token_a_offered_amount) {
            Ok(after) => done is Ok && final(ledger)@ == after,
            Err(e) => done == Err::<(), EscrowError>(e) && final(ledger)@ == old(ledger)@,
        },
{
    let mint = match ledger.mint(&context.token_program, &context.token_mint_a) {
        Ok(mint) => mint,
        Err(e) => {
            return Err(e);
        },
    };
    let transfer_accounts = context.vault_transfer();
    ledger.transfer_checked(
        &context.token_program,
        &transfer_accounts,
        token_a_offered_amount,
        mint.decimals,
    )
}

/// Writes the offer made under `id` into the offer account: the id, the
/// maker, both mints, the amount of token B wanted and the bump seed of the
/// offer's address. The account has to be room for an offer, owned by the
/// escrow program, into which none has been saved; a refusal changes
/// nothing.
pub fn save_offer(
    context: &MakeOffer,
    ledger: &mut Ledger,
    id: u64,
    token_b_wanted_amount: u64,
) -> (done: Result<(), EscrowError>)
    requires
        old(ledger).wf(),
    ensures
        final(ledger).wf(),
        match context.offer_saved(old(ledger)@, id, token_b_wanted_amount) {
            Ok(after) => done is Ok && final(ledger)@ == after,
            Err(e) => done == Err::<(), EscrowError>(e) && final(ledger)@ == old(ledger)@,
        },
{
    let account = match ledger.account(&context.offer) {
        None => {
            return Err(EscrowError::AccountNotInitialized);
        },
        Some(account) => account,
    };
    match account.data {
        AccountData::Wallet => Err(EscrowError::AccountNotInitialized),
        _ => {
            if account.program != context.program_id {
                return Err(EscrowError::AccountOwnedByWrongProgram);
            }
            match account.data {
                AccountData::Allocated => {
                    ledger.set_account(
                        context.offer,
                        Account {
                            lamports: account.lamports,
                            program: account.program,
                            data: AccountData::Offer(context.record(id, token_b_wanted_amount)),
                        },
                    );
                    Ok(())
                },
                AccountData::Offer(_) => Err(EscrowError::OfferAlreadySaved),
                _ => Err(EscrowError::InvalidAccountData),
            }
        },
    }
}

/// Creates an offer, given the addresses derived for it: checks the
/// accounts, creates room for the offer and the vault, moves
/// `token_a_offered_amount` of token A from the maker into the vault and
/// saves the offer. All of it happens or none of it.
pub fn make_offer_with(
    context: &MakeOffer,
    ledger: &mut Ledger,
    id: u64,
    token_a_offered_amount: u64,
    token_b_wanted_amount: u64,
    derived: &MakeOfferAddresses,
) -> (done: Result<(), EscrowError>)
    requires
        old(ledger).wf(),
    ensures
        final(ledger).wf(),
        match context.make_offer_with(
            old(ledger)@,
            id,
            token_a_offered_amount,
            token_b_wanted_amount,
            *derived,
        ) {
            Ok(after) => done is Ok && final(ledger)@ == after,
            Err(e) => done == Err::<(), EscrowError>(e) && final(ledger)@ == old(ledger)@,
        },
{
    let mut work = ledger.snapshot();
    match context.check(&work, derived) {
        Ok(()) => {},
        Err(e) => {
            return Err(e);
        },
    }
    match context.create_offer(&mut work, derived) {
        Ok(()) => {},
        Err(e) => {
            return Err(e);
        },
    }
    match context.create_vault(&mut work, derived) {
        Ok(()) => {},
        Err(e) => {
            return Err(e);
        },
    }
    match send_offered_tokens_to_vault(context, &mut work, token_a_offered_amount) {
        Ok(()) => {},
        Err(e) => {
            return Err(e);
        },
    }
    match save_offer(context, &mut work, id, token_b_wanted_amount) {
        Ok(()) => {},
        Err(e) => {
            return Err(e);
        },
    }
    *ledger = work;
    Ok(())
}

/// Creates an offer: derives the addresses of the offer, of the maker's
/// token account and of the vault, and with them checks the accounts,
/// creates the offer account and the vault, moves `token_a_offered_amount`
/// of token A from the maker into the vault and saves the offer. All of it
/// happens or none of it.
pub fn make_offer(
    context: &MakeOffer,
    ledger: &mut Ledger,
    id: u64,
    token_a_offered_amount: u64,
    token_b_wanted_amount: u64,
) -> (done: Result<(), EscrowError>)
    requires
        old(ledger).wf(),
    ensures
        final(ledger).wf(),
        match context.make_offer(
            old(ledger)@,
            id,
            token_a_offered_amount,
            token_b_wanted_amount,
        ) {
            Ok(after) => done is Ok && final(ledger)@ == after,
            Err(e) => done == Err::<(), EscrowError>(e) && final(ledger)@ == old(ledger)@,
        },
{
    let derived = context.derive(id);
    make_offer_with(
        context,
        ledger,
        id,
        token_a_offered_amount,
        token_b_wanted_amount,
        &derived,
    )
}

} // verus!
