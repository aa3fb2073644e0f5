//! The constraints on accounts that both instructions share.

use crate::address::Address;
use crate::error::EscrowError;
use crate::ledger::Ledger;
use crate::ledger::LedgerState;
use crate::programs::is_associated_token_program;
use crate::programs::is_system_program;
use crate::programs::is_token_program;
use crate::programs::spec_is_associated_token_program;
use crate::programs::spec_is_system_program;
use crate::programs::spec_is_token_program;
use crate::state::AccountData;
use crate::state::Party;
use crate::state::TokenAccount;
use vstd::prelude::*;

verus! {

/// Why the declared programs are refused, if they are: each has to be the
/// program of its name, the token program one of the two that implement the
/// token interface.
pub open spec fn programs_refusal(
    associated_token_program: Address,
    token_program: Address,
    system_program: Address,
) -> Option<EscrowError> {
    if spec_is_associated_token_program(associated_token_program) && spec_is_token_program(
        token_program,
    ) && spec_is_system_program(system_program) {
        None
    } else {
        Some(EscrowError::InvalidProgramId)
    }
}

/// Checks the declared programs.
pub fn check_programs(
    associated_token_program: &Address,
    token_program: &Address,
    system_program: &Address,
) -> (checked: Result<(), EscrowError>)
    ensures
        match programs_refusal(*associated_token_program, *token_program, *system_program) {
            Some(e) => checked == Err::<(), EscrowError>(e),
            None => checked is Ok,
        },
{
    if is_associated_token_program(*associated_token_program) && is_token_program(*token_program)
        && is_system_program(*system_program) {
        Ok(())
    } else {
        Err(EscrowError::InvalidProgramId)
    }
}

/// Why `address` is refused as the token account of `wallet` for `mint`, if
/// it is; `derived` is the address derived for wallet, mint and token
/// program. The checks come in this order: a token account of
/// `token_program` is there, it holds `mint`, `wallet` owns it, and it lives
/// at the derived address.
pub open spec fn associated_token_refusal(
    ledger: LedgerState,
    token_program: Address,
    address: Address,
    wallet: Address,
    mint: Address,
    derived: Option<(Address, u8)>,
) -> Option<EscrowError> {
    let token = ledger.token_account(token_program, address);
    if token is Err {
        Some(token->Err_0)
    } else if token->Ok_0.mint != mint {
        Some(EscrowError::TokenMintMismatch)
    } else if token->Ok_0.owner != wallet {
        Some(EscrowError::TokenOwnerMismatch)
    } else if derived is None {
        Some(EscrowError::NoViableBump)
    } else if derived->Some_0.0 != address {
        Some(EscrowError::NotAssociatedTokenAccount)
    } else {
        None
    }
}

/// Checks that `address` is the token account of `wallet` for `mint`, given
/// the address derived for them.
pub fn check_associated_token(
    ledger: &Ledger,
    token_program: &Address,
    address: &Address,
    wallet: &Address,
    mint: &Address,
    derived: Option<(Address, u8)>,
) -> (checked: Result<(), EscrowError>)
    requires
        ledger.wf(),
    ensures
        match associated_token_refusal(
            ledger@,
            *token_program,
            *address,
            *wallet,
            *mint,
            derived,
        ) {
            Some(e) => checked == Err::<(), EscrowError>(e),
            None => checked is Ok,
        },
{
    let token = match ledger.token_account(token_program, address) {
        Ok(token) => token,
        Err(e) => {
            return Err(e);
        },
    };
    if token.mint != *mint {
        return Err(EscrowError::TokenMintMismatch);
    }
    if token.owner != *wallet {
        return Err(EscrowError::TokenOwnerMismatch);
    }
    match derived {
        None => Err(EscrowError::NoViableBump),
        Some((derived, _)) => {
            if derived != *address {
                Err(EscrowError::NotAssociatedTokenAccount)
            } else {
                Ok(())
            }
        },
    }
}

/// The ledger after `payer` has had the token account of `wallet` for `mint`
/// created at `address`, empty, or why that was refused. The address has to
/// be `derived`, the one derived for wallet, mint and token program, and to
/// hold no data yet.
pub open spec fn associated_token_created(
    ledger: LedgerState,
    payer: Party,
    token_program: Address,
    address: Address,
    wallet: Address,
    mint: Address,
    derived: Option<(Address, u8)>,
) -> Result<LedgerState, EscrowError> {
    if derived is None {
        Err(EscrowError::NoViableBump)
    } else if derived->Some_0.0 != address {
        Err(EscrowError::NotAssociatedTokenAccount)
    } else {
        ledger.create_account(
            payer,
            address,
            ledger.token_account_rent,
            token_program,
            AccountData::Token(TokenAccount { mint, owner: wallet, amount: 0 }),
        )
    }
}

/// Creates the token account of `wallet` for `mint` at `address`, empty, at
/// the cost of `payer`, given the address derived for them. A refused
/// creation changes nothing.
pub fn create_associated_token(
    ledger: &mut Ledger,
    payer: &Party,
    token_program: &Address,
    address: &Address,
    wallet: &Address,
    mint: &Address,
    derived: Option<(Address, u8)>,
) -> (done: Result<(), EscrowError>)
    requires
        old(ledger).wf(),
    ensures
        final(ledger).wf(),
        match associated_token_created(
            old(ledger)@,
            *payer,
            *token_program,
            *address,
            *wallet,
            *mint,
            derived,
        ) {
            Ok(after) => done is Ok && final(ledger)@ == after,
            Err(e) => done == Err::<(), EscrowError>(e) && final(ledger)@ == old(ledger)@,
        },
{
    match derived {
        None => Err(EscrowError::NoViableBump),
        Some((derived, _)) => {
            if derived != *address {
                Err(EscrowError::NotAssociatedTokenAccount)
            } else {
                let rent = ledger.token_account_rent();
                ledger.create_account(
                    payer,
                    address,
                    rent,
                    token_program,
                    AccountData::Token(TokenAccount { mint: *mint, owner: *wallet, amount: 0 }),
                )
            }
        },
    }
}

/// The ledger once `address` is the token account of `wallet` for `mint`:
/// as it was where the address holds data that passes the checks, with the
/// account created at the cost of `payer` where the address holds none.
pub open spec fn associated_token_ensured(
    ledger: LedgerState,
    payer: Party,
    token_program: Address,
    address: Address,
    wallet: Address,
    mint: Address,
    derived: Option<(Address, u8)>,
) -> Result<LedgerState, EscrowError> {
    if ledger.holds_data(address) {
        match associated_token_refusal(ledger, token_program, address, wallet, mint, derived) {
            Some(e) => Err(e),
            None => Ok(ledger),
        }
    } else {
        associated_token_created(ledger, payer, token_program, address, wallet, mint, derived)
    }
}

/// Makes sure that `address` is the token account of `wallet` for `mint`,
/// given the address derived for them, creating it at the cost of `payer`
/// if the address holds no data. A refusal changes nothing.
pub fn ensure_associated_token(
    ledger: &mut Ledger,
    payer: &Party,
    token_program: &Address,
    address: &Address,
    wallet: &Address,
    mint: &Address,
    derived: Option<(Address, u8)>,
) -> (done: Result<(), EscrowError>)
    requires
        old(ledger).wf(),
    ensures
        final(ledger).wf(),
        match associated_token_ensured(
            old(ledger)@,
            *payer,
            *token_program,
            *address,
            *wallet,
            *mint,
            derived,
        ) {
            Ok(after) => done is Ok && final(ledger)@ == after,
            Err(e) => done == Err::<(), EscrowError>(e) && final(ledger)@ == old(ledger)@,
        },
{
    if ledger.holds_data(address) {
        check_associated_token(ledger, token_program, address, wallet, mint, derived)
    } else {
        create_associated_token(ledger, payer, token_program, address, wallet, mint, derived)
    }
}

} // verus!
