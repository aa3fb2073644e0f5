//! What the accounts of the ledger hold.

use crate::address::Address;
use vstd::prelude::*;

verus! {

/// The bytes at the head of an offer account that tell its kind.
pub const ANCHOR_DISCRIMINATOR: usize = 8;

/// The bytes that the fields of an offer take: the id, three addresses, the
/// amount wanted and the bump seed.
pub const OFFER_INIT_SPACE: usize = 113;

/// A proposed trade: the maker has put token A into custody and wants
/// `token_b_wanted_amount` of token B for it. One offer exists per maker and
/// id; it is written once, when the offer is made.
#[derive(Clone, Copy, Debug, PartialEq, Eq)]
pub struct Offer {
    pub id: u64,
    pub maker: Address,
    pub token_mint_a: Address,
    pub token_mint_b: Address,
    pub token_b_wanted_amount: u64,
    pub bump: u8,
}

/// An asset type and the precision of its amounts.
#[derive(Clone, Copy, Debug, PartialEq, Eq)]
pub struct Mint {
    pub decimals: u8,
}

/// A balance of one mint that `owner` may move.
#[derive(Clone, Copy, Debug, PartialEq, Eq)]
pub struct TokenAccount {
    pub mint: Address,
    pub owner: Address,
    pub amount: u64,
}

/// The data of an account.
#[derive(Clone, Copy, Debug, PartialEq, Eq)]
pub enum AccountData {
    /// No data: a wallet, which only holds lamports.
    Wallet,
    Mint(Mint),
    Token(TokenAccount),
    /// Room for an offer that has not been saved yet.
    Allocated,
    Offer(Offer),
}

/// An account of the ledger: its lamports, the program that owns it and its
/// data.
#[derive(Clone, Copy, Debug, PartialEq, Eq)]
pub struct Account {
    pub lamports: u64,
    pub program: Address,
    pub data: AccountData,
}

/// A party to a transaction: its address, and whether it signed.
#[derive(Clone, Copy, Debug, PartialEq, Eq)]
pub struct Party {
    pub key: Address,
    pub is_signer: bool,
}

impl Party {
    /// A party that signed the transaction.
    pub fn signer(key: Address) -> (p: Party)
        ensures
            p == (Party { key, is_signer: true }),
    {
        Party { key, is_signer: true }
    }
}

} // verus!
