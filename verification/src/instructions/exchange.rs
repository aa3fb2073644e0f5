//! The exchange: token A moves from the maker to the taker and token B from
//! the taker to the maker.

use crate::address::Address;
use crate::constraints::associated_token_ensured;
use crate::constraints::associated_token_refusal;
use crate::constraints::check_associated_token;
use crate::constraints::check_programs;
use crate::constraints::ensure_associated_token;
use crate::constraints::programs_refusal;
use crate::derivation::associated_token_address;
use crate::derivation::find_associated_token_address;
use crate::error::EscrowError;
use crate::ledger::Ledger;
use crate::ledger::LedgerState;
use crate::ledger::TransferChecked;
use crate::state::Party;
use vstd::prelude::*;

verus! {

/// The addresses that the token accounts of an exchange are held against,
/// each with its bump seed, or `None` where no bump seed yields one.
#[derive(Clone, Copy, Debug, PartialEq, Eq)]
pub struct ExchangeAddresses {
    pub maker_token_account_a: Option<(Address, u8)>,
    pub taker_token_account_b: Option<(Address, u8)>,
    pub maker_token_account_b: Option<(Address, u8)>,
    pub taker_token_account_a: Option<(Address, u8)>,
}

/// The accounts of an exchange.
#[derive(Clone, Copy, Debug, PartialEq, Eq)]
pub struct Exchange {
    /// The maker, who signs for the token A that leaves.
    pub maker: Party,
    /// The taker, who signs for the token B that leaves.
    pub taker: Party,
    pub token_mint_a: Address,
    pub token_mint_b: Address,
    /// The maker's token account for mint A: the source of the first leg.
    pub maker_token_account_a: Address,
    /// The taker's token account for mint B: the source of the second leg.
    pub taker_token_account_b: Address,
    /// The maker's token account for mint B, created at the maker's cost if
    /// it is not there.
    pub maker_token_account_b: Address,
    /// The taker's token account for mint A, created at the taker's cost if
    /// it is not there.
    pub taker_token_account_a: Address,
    pub associated_token_program: Address,
    pub token_program: Address,
    pub system_program: Address,
}

impl Exchange {
    /// The addresses derived for the four token accounts, each from its
    /// owner and its mint.
    pub open spec fn derived(self) -> ExchangeAddresses {
        ExchangeAddresses {
            maker_token_account_a: associated_token_address(
                self.maker.key,
                self.token_mint_a,
                self.token_program,
            ),
            taker_token_account_b: associated_token_address(
                self.taker.key,
                self.token_mint_b,
                self.token_program,
            ),
            maker_token_account_b: associated_token_address(
                self.maker.key,
                self.token_mint_b,
                self.token_program,
            ),
            taker_token_account_a: associated_token_address(
                self.taker.key,
                self.token_mint_a,
                self.token_program,
            ),
        }
    }

    /// Why the accounts are refused before anything is created or moved, if
    /// they are. The checks come in this order: the signatures of maker and
    /// taker, the programs, mint A, mint B, the maker's token account for
    /// mint A, the taker's token account for mint B.
    pub open spec fn refusal(self, ledger: LedgerState, derived: ExchangeAddresses) -> Option<
        EscrowError,
    > {
        let programs = programs_refusal(
            self.associated_token_program,
            self.token_program,
            self.system_program,
        );
        let mint_a = ledger.mint(self.token_program, self.token_mint_a);
        let mint_b = ledger.mint(self.token_program, self.token_mint_b);
        let maker_a = associated_token_refusal(
            ledger,
            self.token_program,
            self.maker_token_account_a,
            self.maker.key,
            self.token_mint_a,
            derived.maker_token_account_a,
        );
        if !self.maker.is_signer || !self.taker.is_signer {
            Some(EscrowError::AccountNotSigner)
        } else if programs is Some {
            programs
        } else if mint_a is Err {
            Some(mint_a->Err_0)
        } else if mint_b is Err {
            Some(mint_b->Err_0)
        } else if maker_a is Some {
            maker_a
        } else {
            associated_token_refusal(
                ledger,
                self.token_program,
                self.taker_token_account_b,
                self.taker.key,
                self.token_mint_b,
                derived.taker_token_account_b,
            )
        }
    }

    /// The ledger once both destinations are there: the maker's token
    /// account for mint B, then the taker's for mint A, each created at its
    /// owner's cost where its address holds no data.
    pub open spec fn destinations_ensured(
        self,
        ledger: LedgerState,
        derived: ExchangeAddresses,
    ) -> Result<LedgerState, EscrowError> {
        match associated_token_ensured(
            ledger,
            self.maker,
            self.token_program,
            self.maker_token_account_b,
            self.maker.key,
            self.token_mint_b,
            derived.maker_token_account_b,
        ) {
            Err(e) => Err(e),
            Ok(with_maker_b) => associated_token_ensured(
                with_maker_b,
                self.taker,
                self.token_program,
                self.taker_token_account_a,
                self.taker.key,
                self.token_mint_a,
                derived.taker_token_account_a,
            ),
        }
    }

    /// The first leg: the maker moves token A to the taker.
    pub open spec fn spec_maker_leg(&self) -> TransferChecked {
        TransferChecked {
            from: self.maker_token_account_a,
            mint: self.token_mint_a,
            to: self.taker_token_account_a,
            authority: self.maker,
        }
    }

    /// The second leg: the taker moves token B to the maker.
    pub open spec fn spec_taker_leg(&self) -> TransferChecked {
        TransferChecked {
            from: self.taker_token_account_b,
            mint: self.token_mint_b,
            to: self.maker_token_account_b,
            authority: self.taker,
        }
    }

    /// The ledger after both legs, the first before the second, or why one
    /// of them was refused. Each leg states the decimals that its mint
    /// records.
    pub open spec fn swapped(
        self,
        ledger: LedgerState,
        token_a_amount: u64,
        token_b_amount: u64,
    ) -> Result<LedgerState, EscrowError> {
        let mint_a = ledger.mint(self.token_program, self.token_mint_a);
        let mint_b = ledger.mint(self.token_program, self.token_mint_b);
        if mint_a is Err {
            Err(mint_a->Err_0)
        } else if mint_b is Err {
            Err(mint_b->Err_0)
        } else {
            match ledger.transfer_checked(
                self.token_program,
                self.spec_maker_leg(),
                token_a_amount,
                mint_a->Ok_0.decimals,
            ) {
                Err(e) => Err(e),
                Ok(after_first) => after_first.transfer_checked(
                    self.token_program,
                    self.spec_taker_leg(),
                    token_b_amount,
                    mint_b->Ok_0.decimals,
                ),
            }
        }
    }

    /// The exchange as a whole, given the derived addresses: the ledger
    /// after it, or why it was refused. The accounts are checked, the
    /// destinations are made sure of, and the two legs are carried out; the
    /// first refusal on the way is the result.
    pub open spec fn exchange_with(
        self,
        ledger: LedgerState,
        token_a_amount: u64,
        token_b_amount: u64,
        derived: ExchangeAddresses,
    ) -> Result<LedgerState, EscrowError> {
        if self.refusal(ledger, derived) is Some {
            Err(self.refusal(ledger, derived)->Some_0)
        } else {
            match self.destinations_ensured(ledger, derived) {
                Err(e) => Err(e),
                Ok(ready) => self.swapped(ready, token_a_amount, token_b_amount),
            }
        }
    }

    /// The exchange as a whole: the ledger after it, or why it was refused.
    pub open spec fn exchange(
        self,
        ledger: LedgerState,
        token_a_amount: u64,
        token_b_amount: u64,
    ) -> Result<LedgerState, EscrowError> {
        self.exchange_with(ledger, token_a_amount, token_b_amount, self.derived())
    }

    /// Derives the addresses of the four token accounts.
    pub fn derive(&self) -> (derived: ExchangeAddresses)
        ensures
            derived == self.derived(),
    {
        ExchangeAddresses {
            maker_token_account_a: find_associated_token_address(
                &self.maker.key,
                &self.token_mint_a,
                &self.token_program,
            ),
            taker_token_account_b: find_associated_token_address(
                &self.taker.key,
                &self.token_mint_b,
                &self.token_program,
            ),
            maker_token_account_b: find_associated_token_address(
                &self.maker.key,
                &self.token_mint_b,
                &self.token_program,
            ),
            taker_token_account_a: find_associated_token_address(
                &self.taker.key,
                &self.token_mint_a,
                &self.token_program,
            ),
        }
    }

    /// The first leg: the maker moves token A to the taker.
    #[verifier::when_used_as_spec(spec_maker_leg)]
    pub fn maker_leg(&self) -> (accounts: TransferChecked)
        ensures
            accounts == self.spec_maker_leg(),
    {
        TransferChecked {
            from: self.maker_token_account_a,
            mint: self.token_mint_a,
            to: self.taker_token_account_a,
            authority: self.maker,
        }
    }

    /// The second leg: the taker moves token B to the maker.
    #[verifier::when_used_as_spec(spec_taker_leg)]
    pub fn taker_leg(&self) -> (accounts: TransferChecked)
        ensures
            accounts == self.spec_taker_leg(),
    {
        TransferChecked {
            from: self.taker_token_account_b,
            mint: self.token_mint_b,
            to: self.maker_token_account_b,
            authority: self.taker,
        }
    }

    /// Checks the accounts that have to exist before anything is created or
    /// moved.
    pub fn check(&self, ledger: &Ledger, derived: &ExchangeAddresses) -> (checked: Result<
        (),
        EscrowError,
    >)
        requires
            ledger.wf(),
        ensures
            match self.refusal(ledger@, *derived) {
                Some(e) => checked == Err::<(), EscrowError>(e),
                None => checked is Ok,
            },
    {
        if !self.maker.is_signer || !self.taker.is_signer {
            return Err(EscrowError::AccountNotSigner);
        }
        match check_programs(
            &self.associated_token_program,
            &self.token_program,
            &self.system_program,
        ) {
            Ok(()) => {},
            Err(e) => {
                return Err(e);
            },
        }
        match ledger.mint(&self.token_program, &self.token_mint_a) {
            Ok(_) => {},
            Err(e) => {
                return Err(e);
            },
        }
        match ledger.mint(&self.token_program, &self.token_mint_b) {
            Ok(_) => {},
            Err(e) => {
                return Err(e);
            },
        }
        match check_associated_token(
            ledger,
            &self.token_program,
            &self.maker_token_account_a,
            &self.maker.key,
            &self.token_mint_a,
            derived.maker_token_account_a,
        ) {
            Ok(()) => {},
            Err(e) => {
                return Err(e);
            },
        }
        check_associated_token(
            ledger,
            &self.token_program,
            &self.taker_token_account_b,
            &self.taker.key,
            &self.token_mint_b,
            derived.taker_token_account_b,
        )
    }

    /// Makes sure of both destinations. On a refusal the ledger may hold
    /// the maker's new token account; the caller discards it.
    fn ensure_destinations(&self, ledger: &mut Ledger, derived: &ExchangeAddresses) -> (done:
        Result<(), EscrowError>)
        requires
            old(ledger).wf(),
        ensures
            final(ledger).wf(),
            match self.destinations_ensured(old(ledger)@, *derived) {
                Ok(after) => done is Ok && final(ledger)@ == after,
                Err(e) => done == Err::<(), EscrowError>(e),
            },
    {
        match ensure_associated_token(
            ledger,
            &self.maker,
            &self.token_program,
            &self.maker_token_account_b,
            &self.maker.key,
            &self.token_mint_b,
            derived.maker_token_account_b,
        ) {
            Ok(()) => {},
            Err(e) => {
                return Err(e);
            },
        }
        ensure_associated_token(
            ledger,
            &self.taker,
            &self.token_program,
            &self.taker_token_account_a,
            &self.taker.key,
            &self.token_mint_a,
            derived.taker_token_account_a,
        )
    }

    /// Carries out both legs. On a refusal the ledger may hold the effect
    /// of the first leg; the caller discards it.
    fn swap(&self, ledger: &mut Ledger, token_a_amount: u64, token_b_amount: u64) -> (done: Result<
        (),
        EscrowError,
    >)
        requires
            old(ledger).wf(),
        ensures
            final(ledger).wf(),
            match self.swapped(old(ledger)@, token_a_amount, token_b_amount) {
                Ok(after) => done is Ok && final(ledger)@ == after,
                Err(e) => done == Err::<(), EscrowError>(e),
            },
    {
        let mint_a = match ledger.mint(&self.token_program, &self.token_mint_a) {
            Ok(mint) => mint,
            Err(e) => {
                return Err(e);
            },
        };
        let mint_b = match ledger.mint(&self.token_program, &self.token_mint_b) {
            Ok(mint) => mint,
            Err(e) => {
                return Err(e);
            },
        };
        let transfer_accounts_1 = self.maker_leg();
        match ledger.transfer_checked(
            &self.token_program,
            &transfer_accounts_1,
            token_a_amount,
            mint_a.decimals,
        ) {
            Ok(()) => {},
            Err(e) => {
                return Err(e);
            },
        }
        let transfer_accounts_2 = self.taker_leg();
        ledger.transfer_checked(
            &self.token_program,
            &transfer_accounts_2,
            token_b_amount,
            mint_b.decimals,
        )
    }
}

/// Exchanges `token_a_amount` of token A from the maker for
/// `token_b_amount` of token B from the taker, given the addresses derived
/// for the four token accounts: checks the accounts, makes sure of both
/// destinations, then moves token A from the maker's account to the taker's
/// on the maker's authority and token B from the taker's account to the
/// maker's on the taker's authority. All of it happens or none of it.
pub fn exchange_with(
    ctx: &Exchange,
    ledger: &mut Ledger,
    token_a_amount: u64,
    token_b_amount: u64,
    derived: &ExchangeAddresses,
) -> (done: Result<(), EscrowError>)
    requires
        old(ledger).wf(),
    ensures
        final(ledger).wf(),
        match ctx.exchange_with(old(ledger)@, token_a_amount, token_b_amount, *derived) {
            Ok(after) => done is Ok && final(ledger)@ == after,
            Err(e) => done == Err::<(), EscrowError>(e) && final(ledger)@ == old(ledger)@,
        },
{
    let mut work = ledger.snapshot();
    match ctx.check(&work, derived) {
        Ok(()) => {},
        Err(e) => {
            return Err(e);
        },
    }
    match ctx.ensure_destinations(&mut work, derived) {
        Ok(()) => {},
        Err(e) => {
            return Err(e);
        },
    }
    match ctx.swap(&mut work, token_a_amount, token_b_amount) {
        Ok(()) => {},
        Err(e) => {
            return Err(e);
        },
    }
    *ledger = work;
    Ok(())
}

/// Exchanges `token_a_amount` of token A from the maker for
/// `token_b_amount` of token B from the taker: derives the addresses of the
/// four token accounts, and with them checks the accounts, makes sure of
/// both destinations and carries out the two legs. All of it happens or
/// none of it.
pub fn exchange(
    ctx: &Exchange,
    ledger: &mut Ledger,
    token_a_amount: u64,
    token_b_amount: u64,
) -> (done: Result<(), EscrowError>)
    requires
        old(ledger).wf(),
    ensures
        final(ledger).wf(),
        match ctx.exchange(old(ledger)@, token_a_amount, token_b_amount) {
            Ok(after) => done is Ok && final(ledger)@ == after,
            Err(e) => done == Err::<(), EscrowError>(e) && final(ledger)@ == old(ledger)@,
        },
{
    let derived = ctx.derive();
    exchange_with(ctx, ledger, token_a_amount, token_b_amount, &derived)
}

} // verus!
