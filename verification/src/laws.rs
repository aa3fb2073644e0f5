//! What holds of every offer creation and of every exchange.

use crate::address::Address;
use crate::constraints::associated_token_ensured;
use crate::error::EscrowError;
use crate::instructions::exchange::Exchange;
use crate::instructions::exchange::ExchangeAddresses;
use crate::instructions::make_offer::MakeOffer;
use crate::instructions::make_offer::MakeOfferAddresses;
use crate::ledger::LedgerState;
use crate::ledger::TransferChecked;
use crate::state::Party;
use crate::state::TokenAccount;
use vstd::prelude::*;

verus! {

/// Creating an offer takes exactly the offered amount out of the maker's
/// token account for mint A and puts exactly that amount into the vault,
/// which held nothing before; the offer record holds what was declared and
/// the amount of token B wanted. This holds whatever the derived addresses
/// are.
pub proof fn lemma_make_offer_funds_vault(
    context: MakeOffer,
    ledger: LedgerState,
    id: u64,
    token_a_offered_amount: u64,
    token_b_wanted_amount: u64,
    derived: MakeOfferAddresses,
)
    requires
        context.make_offer_with(
            ledger,
            id,
            token_a_offered_amount,
            token_b_wanted_amount,
            derived,
        ) is Ok,
    ensures
        ({
            let after = context.make_offer_with(
                ledger,
                id,
                token_a_offered_amount,
                token_b_wanted_amount,
                derived,
            )->Ok_0;
            &&& !ledger.holds_data(context.vault)
            &&& ledger.token_balance(context.vault) == 0
            &&& after.token_balance(context.vault) == token_a_offered_amount
            &&& after.token_balance(context.maker_token_account_a) == ledger.token_balance(
                context.maker_token_account_a,
            ) - token_a_offered_amount
            &&& after.token_account(context.token_program, context.vault) == Ok::<
                TokenAccount,
                EscrowError,
            >(
                TokenAccount {
                    mint: context.token_mint_a,
                    owner: context.offer,
                    amount: token_a_offered_amount,
                },
            )
            &&& ledger.offer(context.offer) is None
            &&& after.offer(context.offer) == Some(context.spec_record(id, token_b_wanted_amount))
        }),
{
}

/// Once an offer has been created for a maker and an id, creating another
/// for the same maker and id under the same program fails, whatever else
/// the second attempt declares; with the accounts of the first it fails
/// because the offer's address is in use.
pub proof fn lemma_second_offer_collides(
    first: MakeOffer,
    second: MakeOffer,
    ledger: LedgerState,
    id: u64,
    first_offered: u64,
    first_wanted: u64,
    second_offered: u64,
    second_wanted: u64,
)
    requires
        first.make_offer(ledger, id, first_offered, first_wanted) is Ok,
        second.program_id == first.program_id,
        second.maker.key == first.maker.key,
    ensures
        ({
            let after = first.make_offer(ledger, id, first_offered, first_wanted)->Ok_0;
            &&& second.make_offer(after, id, second_offered, second_wanted) is Err
            &&& second == first ==> second.make_offer(after, id, second_offered, second_wanted)
                == Err::<LedgerState, EscrowError>(EscrowError::AddressInUse)
        }),
{
}

/// Creating an offer changes the token balance of no account but the
/// maker's token account for mint A and the vault, whatever the derived
/// addresses are.
pub proof fn lemma_make_offer_keeps_other_balances(
    context: MakeOffer,
    ledger: LedgerState,
    id: u64,
    token_a_offered_amount: u64,
    token_b_wanted_amount: u64,
    derived: MakeOfferAddresses,
    other: Address,
)
    requires
        context.make_offer_with(
            ledger,
            id,
            token_a_offered_amount,
            token_b_wanted_amount,
            derived,
        ) is Ok,
        other != context.maker_token_account_a,
        other != context.vault,
    ensures
        context.make_offer_with(
            ledger,
            id,
            token_a_offered_amount,
            token_b_wanted_amount,
            derived,
        )->Ok_0.token_balance(other) == ledger.token_balance(other),
{
}

/// An offer that has been saved stays as it is when another offer is
/// created, whatever the derived addresses are.
pub proof fn lemma_make_offer_keeps_offers(
    context: MakeOffer,
    ledger: LedgerState,
    id: u64,
    token_a_offered_amount: u64,
    token_b_wanted_amount: u64,
    derived: MakeOfferAddresses,
    saved: Address,
)
    requires
        context.make_offer_with(
            ledger,
            id,
            token_a_offered_amount,
            token_b_wanted_amount,
            derived,
        ) is Ok,
        ledger.offer(saved) is Some,
    ensures
        context.make_offer_with(
            ledger,
            id,
            token_a_offered_amount,
            token_b_wanted_amount,
            derived,
        )->Ok_0.offer(saved) == ledger.offer(saved),
{
}

/// An offer of more token A than the maker's token account holds is
/// refused, whatever the derived addresses are.
pub proof fn lemma_make_offer_needs_balance(
    context: MakeOffer,
    ledger: LedgerState,
    id: u64,
    token_a_offered_amount: u64,
    token_b_wanted_amount: u64,
    derived: MakeOfferAddresses,
)
    requires
        ledger.token_balance(context.maker_token_account_a) < token_a_offered_amount,
    ensures
        context.make_offer_with(
            ledger,
            id,
            token_a_offered_amount,
            token_b_wanted_amount,
            derived,
        ) is Err,
{
}

/// Making sure of a token account gives a token account of the declared
/// owner and mint at the address, changes no token balance, and keeps every
/// token account and every mint that was there.
proof fn lemma_ensured(
    ledger: LedgerState,
    payer: Party,
    token_program: Address,
    address: Address,
    wallet: Address,
    mint: Address,
    derived: Option<(Address, u8)>,
    other: Address,
)
    requires
        associated_token_ensured(ledger, payer, token_program, address, wallet, mint, derived)
            is Ok,
    ensures
        ({
            let after = associated_token_ensured(
                ledger,
                payer,
                token_program,
                address,
                wallet,
                mint,
                derived,
            )->Ok_0;
            &&& after.token_account(token_program, address) is Ok
            &&& after.token_account(token_program, address)->Ok_0.mint == mint
            &&& after.token_account(token_program, address)->Ok_0.owner == wallet
            &&& after.token_balance(other) == ledger.token_balance(other)
            &&& ledger.token_account(token_program, other) is Ok ==> after.token_account(
                token_program,
                other,
            ) == ledger.token_account(token_program, other)
            &&& ledger.mint(token_program, other) is Ok ==> after.mint(token_program, other)
                == ledger.mint(token_program, other)
        }),
{
}

/// A checked transfer that is carried out leaves a token account of the
/// authority and takes `amount` out of it, reaches a token account and puts
/// `amount` into it, both of the stated mint, and changes no other token
/// balance; it keeps the owner and the mint of every token account, and
/// every mint.
proof fn lemma_transfer(
    ledger: LedgerState,
    program: Address,
    accounts: TransferChecked,
    amount: u64,
    decimals: u8,
    other: Address,
)
    requires
        ledger.transfer_checked(program, accounts, amount, decimals) is Ok,
    ensures
        ({
            let after = ledger.transfer_checked(program, accounts, amount, decimals)->Ok_0;
            &&& ledger.token_account(program, accounts.from) is Ok
            &&& ledger.token_account(program, accounts.from)->Ok_0.owner
                == accounts.authority.key
            &&& ledger.token_account(program, accounts.from)->Ok_0.mint == accounts.mint
            &&& ledger.token_account(program, accounts.to) is Ok
            &&& ledger.token_account(program, accounts.to)->Ok_0.mint == accounts.mint
            &&& ledger.token_balance(accounts.from) >= amount
            &&& accounts.from == accounts.to ==> after == ledger
            &&& accounts.from != accounts.to ==> {
                &&& after.token_balance(accounts.from) == ledger.token_balance(accounts.from)
                    - amount
                &&& after.token_balance(accounts.to) == ledger.token_balance(accounts.to)
                    + amount
            }
            &&& other != accounts.from && other != accounts.to ==> after.token_balance(other)
                == ledger.token_balance(other)
            &&& ledger.token_account(program, other) is Ok ==> {
                &&& after.token_account(program, other) is Ok
                &&& after.token_account(program, other)->Ok_0.mint == ledger.token_account(
                    program,
                    other,
                )->Ok_0.mint
                &&& after.token_account(program, other)->Ok_0.owner == ledger.token_account(
                    program,
                    other,
                )->Ok_0.owner
            }
            &&& after.mint(program, other) == ledger.mint(program, other)
        }),
{
}

/// An exchange between two parties over two mints takes `token_a_amount`
/// out of the maker's token account for mint A and puts it into the
/// taker's, and takes `token_b_amount` out of the taker's token account for
/// mint B and puts it into the maker's. Where maker and taker are one
/// party, or the two mints are one mint, two of the four accounts are one
/// account, and this holds only of an exchange of nothing. It holds
/// whatever the derived addresses are.
pub proof fn lemma_exchange_moves_both_amounts(
    ctx: Exchange,
    ledger: LedgerState,
    token_a_amount: u64,
    token_b_amount: u64,
    derived: ExchangeAddresses,
)
    requires
        ctx.exchange_with(ledger, token_a_amount, token_b_amount, derived) is Ok,
        (ctx.maker.key != ctx.taker.key && ctx.token_mint_a != ctx.token_mint_b) || (
        token_a_amount == 0 && token_b_amount == 0),
    ensures
        ({
            let after = ctx.exchange_with(
                ledger,
                token_a_amount,
                token_b_amount,
                derived,
            )->Ok_0;
            &&& after.token_balance(ctx.maker_token_account_a) == ledger.token_balance(
                ctx.maker_token_account_a,
            ) - token_a_amount
            &&& after.token_balance(ctx.taker_token_account_a) == ledger.token_balance(
                ctx.taker_token_account_a,
            ) + token_a_amount
            &&& after.token_balance(ctx.taker_token_account_b) == ledger.token_balance(
                ctx.taker_token_account_b,
            ) - token_b_amount
            &&& after.token_balance(ctx.maker_token_account_b) == ledger.token_balance(
                ctx.maker_token_account_b,
            ) + token_b_amount
        }),
{
    let program = ctx.token_program;
    let maker_a = ctx.maker_token_account_a;
    let taker_a = ctx.taker_token_account_a;
    let maker_b = ctx.maker_token_account_b;
    let taker_b = ctx.taker_token_account_b;
    let for_maker_b = derived.maker_token_account_b;
    let for_taker_a = derived.taker_token_account_a;
    let mint_a = ctx.token_mint_a;
    let mint_b = ctx.token_mint_b;
    let with_maker_b = associated_token_ensured(
        ledger,
        ctx.maker,
        program,
        maker_b,
        ctx.maker.key,
        mint_b,
        for_maker_b,
    )->Ok_0;
    lemma_ensured(ledger, ctx.maker, program, maker_b, ctx.maker.key, mint_b, for_maker_b, maker_a);
    lemma_ensured(ledger, ctx.maker, program, maker_b, ctx.maker.key, mint_b, for_maker_b, taker_a);
    lemma_ensured(ledger, ctx.maker, program, maker_b, ctx.maker.key, mint_b, for_maker_b, maker_b);
    lemma_ensured(ledger, ctx.maker, program, maker_b, ctx.maker.key, mint_b, for_maker_b, taker_b);
    let ready = ctx.destinations_ensured(ledger, derived)->Ok_0;
    lemma_ensured(
        with_maker_b,
        ctx.taker,
        program,
        taker_a,
        ctx.taker.key,
        mint_a,
        for_taker_a,
        maker_a,
    );
    lemma_ensured(
        with_maker_b,
        ctx.taker,
        program,
        taker_a,
        ctx.taker.key,
        mint_a,
        for_taker_a,
        taker_a,
    );
    lemma_ensured(
        with_maker_b,
        ctx.taker,
        program,
        taker_a,
        ctx.taker.key,
        mint_a,
        for_taker_a,
        maker_b,
    );
    lemma_ensured(
        with_maker_b,
        ctx.taker,
        program,
        taker_a,
        ctx.taker.key,
        mint_a,
        for_taker_a,
        taker_b,
    );
    let decimals_a = ready.mint(program, ctx.token_mint_a)->Ok_0.decimals;
    let decimals_b = ready.mint(program, ctx.token_mint_b)->Ok_0.decimals;
    let first = ctx.spec_maker_leg();
    let second = ctx.spec_taker_leg();
    let after_first = ready.transfer_checked(program, first, token_a_amount, decimals_a)->Ok_0;
    lemma_transfer(ready, program, first, token_a_amount, decimals_a, maker_b);
    lemma_transfer(ready, program, first, token_a_amount, decimals_a, taker_b);
    lemma_transfer(after_first, program, second, token_b_amount, decimals_b, maker_a);
    lemma_transfer(after_first, program, second, token_b_amount, decimals_b, taker_a);
}

/// An exchange changes the token balance of no account but the four token
/// accounts it was given, whatever the derived addresses are.
pub proof fn lemma_exchange_keeps_other_balances(
    ctx: Exchange,
    ledger: LedgerState,
    token_a_amount: u64,
    token_b_amount: u64,
    derived: ExchangeAddresses,
    other: Address,
)
    requires
        ctx.exchange_with(ledger, token_a_amount, token_b_amount, derived) is Ok,
        other != ctx.maker_token_account_a,
        other != ctx.taker_token_account_a,
        other != ctx.maker_token_account_b,
        other != ctx.taker_token_account_b,
    ensures
        ctx.exchange_with(ledger, token_a_amount, token_b_amount, derived)->Ok_0.token_balance(
            other,
        ) == ledger.token_balance(other),
{
}

/// An exchange changes no offer: what an address holds as an offer stays,
/// whatever the derived addresses are.
pub proof fn lemma_exchange_keeps_offers(
    ctx: Exchange,
    ledger: LedgerState,
    token_a_amount: u64,
    token_b_amount: u64,
    derived: ExchangeAddresses,
    saved: Address,
)
    requires
        ctx.exchange_with(ledger, token_a_amount, token_b_amount, derived) is Ok,
    ensures
        ctx.exchange_with(ledger, token_a_amount, token_b_amount, derived)->Ok_0.offer(saved)
            == ledger.offer(saved),
{
}

/// An exchange is refused where the maker's token account for mint A holds
/// less than `token_a_amount`, and where the taker's token account for mint
/// B holds less than `token_b_amount`, unless the first leg pays into that
/// very account from another one. This holds whatever the derived
/// addresses are.
pub proof fn lemma_exchange_needs_both_balances(
    ctx: Exchange,
    ledger: LedgerState,
    token_a_amount: u64,
    token_b_amount: u64,
    derived: ExchangeAddresses,
)
    requires
        ledger.token_balance(ctx.maker_token_account_a) < token_a_amount || (ledger.token_balance(
            ctx.taker_token_account_b,
        ) < token_b_amount && !(ctx.taker_token_account_b == ctx.taker_token_account_a
            && ctx.maker_token_account_a != ctx.taker_token_account_a)),
    ensures
        ctx.exchange_with(ledger, token_a_amount, token_b_amount, derived) is Err,
{
}

} // verus!
