//! Program-derived addresses: where an offer record lives, and where the
//! token account of an owner for a mint lives.

use crate::address::Address;
use crate::programs::ASSOCIATED_TOKEN_PROGRAM_ID;
use anchor_lang::prelude::Pubkey;
use vstd::bytes::spec_u64_to_le_bytes;
use vstd::bytes::u64_to_le_bytes;
use vstd::prelude::*;

verus! {

/// The address and bump seed that the ledger runtime derives for a program
/// from a list of seeds, or `None` where no bump seed yields one.
pub uninterp spec fn program_address(seeds: Seq<Seq<u8>>, program_id: Seq<u8>) -> Option<
    (Seq<u8>, u8),
>;

/// Calls `Pubkey::try_find_program_address` of solana-program, reached
/// through anchor-lang. Trusted: the result is a function of the seeds and
/// the program id alone, which `program_address` names. The search hashes the
/// seeds, a bump seed and the program id and keeps the first hash that is
/// not a curve point; none of that is restated here.
#[verifier::external_body]
fn try_find_program_address(seeds: &Vec<Vec<u8>>, program_id: &Address) -> (found: Option<
    (Address, u8),
>)
    ensures
        match found {
            Some((address, bump)) => program_address(seeds.deep_view(), program_id@) == Some(
                (address@, bump),
            ),
            None => program_address(seeds.deep_view(), program_id@) is None,
        },
{
    let slices: Vec<&[u8]> = seeds.iter().map(|seed| seed.as_slice()).collect();
    let program = Pubkey::new_from_array(program_id.bytes);
    Pubkey::try_find_program_address(&slices, &program).map(
        |(key, bump)| (Address { bytes: key.to_bytes() }, bump),
    )
}

/// A derived address and its bump seed as values of the library.
pub open spec fn resolved(named: Option<(Seq<u8>, u8)>) -> Option<(Address, u8)> {
    match named {
        Some((bytes, bump)) => Some((Address::from_seq(bytes), bump)),
        None => None,
    }
}

/// The seeds of the offer that `maker` makes under `id`: the word "offer",
/// the maker's address and the id as eight little-endian bytes.
pub open spec fn offer_seeds(maker: Address, id: u64) -> Seq<Seq<u8>> {
    seq![seq![111u8, 102u8, 102u8, 101u8, 114u8], maker@, spec_u64_to_le_bytes(id)]
}

/// Where the escrow program `program_id` keeps the offer that `maker` makes
/// under `id`, with the bump seed of that address.
pub open spec fn offer_address(program_id: Address, maker: Address, id: u64) -> Option<
    (Address, u8),
> {
    resolved(program_address(offer_seeds(maker, id), program_id@))
}

/// The seeds of the token account of `wallet` for `mint` under
/// `token_program`.
pub open spec fn associated_token_seeds(
    wallet: Address,
    mint: Address,
    token_program: Address,
) -> Seq<Seq<u8>> {
    seq![wallet@, token_program@, mint@]
}

/// Where the token account of `wallet` for `mint` under `token_program`
/// lives, with the bump seed of that address.
pub open spec fn associated_token_address(
    wallet: Address,
    mint: Address,
    token_program: Address,
) -> Option<(Address, u8)> {
    resolved(
        program_address(
            associated_token_seeds(wallet, mint, token_program),
            ASSOCIATED_TOKEN_PROGRAM_ID@,
        ),
    )
}

/// Derives the address of the offer that `maker` makes under `id`.
pub fn find_offer_address(program_id: &Address, maker: &Address, id: u64) -> (found: Option<
    (Address, u8),
>)
    ensures
        found == offer_address(*program_id, *maker, id),
{
    let mut seeds: Vec<Vec<u8>> = Vec::new();
    seeds.push(vec![111u8, 102u8, 102u8, 101u8, 114u8]);
    seeds.push(maker.to_vec());
    seeds.push(u64_to_le_bytes(id));
    assert(seeds.deep_view() =~~= offer_seeds(*maker, id));
    let found = try_find_program_address(&seeds, program_id);
    proof {
        if let Some((address, _)) = found {
            Address::lemma_from_seq(address);
        }
    }
    found
}

/// Derives the address of the token account of `wallet` for `mint` under
/// `token_program`.
pub fn find_associated_token_address(
    wallet: &Address,
    mint: &Address,
    token_program: &Address,
) -> (found: Option<(Address, u8)>)
    ensures
        found == associated_token_address(*wallet, *mint, *token_program),
{
    let mut seeds: Vec<Vec<u8>> = Vec::new();
    seeds.push(wallet.to_vec());
    seeds.push(token_program.to_vec());
    seeds.push(mint.to_vec());
    assert(seeds.deep_view() =~~= associated_token_seeds(*wallet, *mint, *token_program));
    let program = Address::new(ASSOCIATED_TOKEN_PROGRAM_ID);
    let found = try_find_program_address(&seeds, &program);
    proof {
        if let Some((address, _)) = found {
            Address::lemma_from_seq(address);
        }
    }
    found
}

} // verus!
