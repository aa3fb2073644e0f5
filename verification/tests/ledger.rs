use escrow::address::Address;
use escrow::error::EscrowError;
use escrow::ledger::Ledger;
use escrow::ledger::TransferChecked;
use escrow::programs::SYSTEM_PROGRAM_ID;
use escrow::programs::TOKEN_2022_PROGRAM_ID;
use escrow::programs::TOKEN_PROGRAM_ID;
use escrow::state::Account;
use escrow::state::AccountData;
use escrow::state::Mint;
use escrow::state::Offer;
use escrow::state::Party;
use escrow::state::TokenAccount;

fn at(n: u8) -> Address {
    let mut bytes = [0u8; 32];
    bytes[0] = n;
    bytes[31] = 0xa5;
    Address::new(bytes)
}

fn token_program() -> Address {
    Address::new(TOKEN_PROGRAM_ID)
}

fn wallet(lamports: u64) -> Account {
    Account { lamports, program: Address::new(SYSTEM_PROGRAM_ID), data: AccountData::Wallet }
}

fn mint(decimals: u8) -> Account {
    Account { lamports: 1, program: token_program(), data: AccountData::Mint(Mint { decimals }) }
}

fn token(mint: Address, owner: Address, amount: u64) -> Account {
    Account {
        lamports: 2,
        program: token_program(),
        data: AccountData::Token(TokenAccount { mint, owner, amount }),
    }
}

const OWNER: u8 = 1;
const OTHER: u8 = 2;
const MINT: u8 = 3;
const FROM: u8 = 4;
const TO: u8 = 5;

fn funded() -> Ledger {
    let mut ledger = Ledger::new(15, 20);
    ledger.set_account(at(OWNER), wallet(100));
    ledger.set_account(at(MINT), mint(6));
    ledger.set_account(at(FROM), token(at(MINT), at(OWNER), 1000));
    ledger.set_account(at(TO), token(at(MINT), at(OTHER), 5));
    ledger
}

fn accounts() -> TransferChecked {
    TransferChecked {
        from: at(FROM),
        mint: at(MINT),
        to: at(TO),
        authority: Party::signer(at(OWNER)),
    }
}

fn same(a: &Ledger, b: &Ledger, addresses: &[u8]) -> bool {
    addresses.iter().all(|n| a.account(&at(*n)) == b.account(&at(*n)))
        && a.offer_rent() == b.offer_rent()
        && a.token_account_rent() == b.token_account_rent()
}

const ALL: [u8; 9] = [0, 1, 2, 3, 4, 5, 6, 7, 8];

#[test]
fn new_ledger_holds_nothing() {
    let ledger = Ledger::new(15, 20);
    assert_eq!(ledger.offer_rent(), 15);
    assert_eq!(ledger.token_account_rent(), 20);
    assert_eq!(ledger.account(&at(1)), None);
    assert_eq!(ledger.lamports(&at(1)), 0);
    assert_eq!(ledger.spendable(&at(1)), 0);
    assert_eq!(ledger.token_balance(&at(1)), 0);
    assert_eq!(ledger.offer(&at(1)), None);
    assert!(!ledger.holds_data(&at(1)));
    assert_eq!(ledger.mint(&token_program(), &at(1)), Err(EscrowError::AccountNotInitialized));
    assert_eq!(
        ledger.token_account(&token_program(), &at(1)),
        Err(EscrowError::AccountNotInitialized)
    );
}

#[test]
fn set_account_puts_and_replaces() {
    let mut ledger = Ledger::new(0, 0);
    ledger.set_account(at(1), wallet(7));
    ledger.set_account(at(2), wallet(9));
    assert_eq!(ledger.account(&at(1)), Some(wallet(7)));
    assert_eq!(ledger.account(&at(2)), Some(wallet(9)));
    ledger.set_account(at(1), token(at(3), at(2), 11));
    assert_eq!(ledger.account(&at(1)), Some(token(at(3), at(2), 11)));
    assert_eq!(ledger.account(&at(2)), Some(wallet(9)));
    assert_eq!(ledger.token_balance(&at(1)), 11);
    assert_eq!(ledger.lamports(&at(1)), 2);
    assert_eq!(ledger.spendable(&at(1)), 0);
    assert_eq!(ledger.spendable(&at(2)), 9);
    assert!(ledger.holds_data(&at(1)));
    assert!(!ledger.holds_data(&at(2)));
}

#[test]
fn accounts_are_read_by_kind() {
    let mut ledger = funded();
    let offer = Offer {
        id: 4,
        maker: at(OWNER),
        token_mint_a: at(MINT),
        token_mint_b: at(MINT),
        token_b_wanted_amount: 8,
        bump: 250,
    };
    ledger.set_account(at(6), Account { lamports: 3, program: at(9), data: AccountData::Offer(offer) });
    ledger.set_account(at(7), Account { lamports: 3, program: at(9), data: AccountData::Allocated });
    assert_eq!(ledger.offer(&at(6)), Some(offer));
    assert_eq!(ledger.offer(&at(7)), None);
    assert_eq!(ledger.offer(&at(FROM)), None);
    assert_eq!(ledger.token_balance(&at(6)), 0);
    assert!(ledger.holds_data(&at(7)));
    assert_eq!(ledger.mint(&token_program(), &at(MINT)), Ok(Mint { decimals: 6 }));
    assert_eq!(ledger.mint(&token_program(), &at(FROM)), Err(EscrowError::InvalidAccountData));
    assert_eq!(
        ledger.mint(&Address::new(TOKEN_2022_PROGRAM_ID), &at(MINT)),
        Err(EscrowError::AccountOwnedByWrongProgram)
    );
    assert_eq!(ledger.mint(&token_program(), &at(OWNER)), Err(EscrowError::AccountNotInitialized));
    assert_eq!(
        ledger.token_account(&token_program(), &at(FROM)),
        Ok(TokenAccount { mint: at(MINT), owner: at(OWNER), amount: 1000 })
    );
    assert_eq!(
        ledger.token_account(&token_program(), &at(MINT)),
        Err(EscrowError::InvalidAccountData)
    );
    assert_eq!(
        ledger.token_account(&token_program(), &at(6)),
        Err(EscrowError::AccountOwnedByWrongProgram)
    );
}

#[test]
fn snapshot_is_a_copy_of_its_own() {
    let ledger = funded();
    let mut copy = ledger.snapshot();
    assert!(same(&ledger, &copy, &ALL));
    copy.set_account(at(OWNER), wallet(1));
    assert_eq!(ledger.lamports(&at(OWNER)), 100);
    assert_eq!(copy.lamports(&at(OWNER)), 1);
}

#[test]
fn transfer_moves_the_exact_amount() {
    let mut ledger = funded();
    assert_eq!(ledger.transfer_checked(&token_program(), &accounts(), 100, 6), Ok(()));
    assert_eq!(ledger.token_balance(&at(FROM)), 900);
    assert_eq!(ledger.token_balance(&at(TO)), 105);
    assert_eq!(ledger.account(&at(FROM)), Some(token(at(MINT), at(OWNER), 900)));
    assert_eq!(ledger.account(&at(TO)), Some(token(at(MINT), at(OTHER), 105)));
    assert_eq!(ledger.account(&at(MINT)), Some(mint(6)));
    assert_eq!(ledger.account(&at(OWNER)), Some(wallet(100)));
}

#[test]
fn transfer_of_the_whole_balance_and_of_nothing() {
    let mut ledger = funded();
    assert_eq!(ledger.transfer_checked(&token_program(), &accounts(), 0, 6), Ok(()));
    assert!(same(&ledger, &funded(), &ALL));
    assert_eq!(ledger.transfer_checked(&token_program(), &accounts(), 1000, 6), Ok(()));
    assert_eq!(ledger.token_balance(&at(FROM)), 0);
    assert_eq!(ledger.token_balance(&at(TO)), 1005);
}

#[test]
fn transfer_to_the_same_account_changes_nothing() {
    let mut ledger = funded();
    let to_self = TransferChecked { to: at(FROM), ..accounts() };
    assert_eq!(ledger.transfer_checked(&token_program(), &to_self, 1000, 6), Ok(()));
    assert!(same(&ledger, &funded(), &ALL));
    assert_eq!(
        ledger.transfer_checked(&token_program(), &to_self, 1001, 6),
        Err(EscrowError::InsufficientFunds)
    );
    ledger.set_account(at(FROM), token(at(MINT), at(OWNER), u64::MAX));
    assert_eq!(ledger.transfer_checked(&token_program(), &to_self, u64::MAX, 6), Ok(()));
    assert_eq!(ledger.token_balance(&at(FROM)), u64::MAX);
}

fn refused(ledger: &mut Ledger, program: Address, accounts: TransferChecked, amount: u64, decimals: u8) -> EscrowError {
    let before = ledger.snapshot();
    let error = ledger.transfer_checked(&program, &accounts, amount, decimals).unwrap_err();
    assert!(same(ledger, &before, &ALL));
    error
}

#[test]
fn transfer_needs_a_token_program() {
    let mut ledger = funded();
    let error = refused(&mut ledger, Address::new(SYSTEM_PROGRAM_ID), accounts(), 1, 6);
    assert_eq!(error, EscrowError::InvalidProgramId);
}

#[test]
fn transfer_needs_its_three_accounts() {
    let mut ledger = funded();
    let program = token_program();
    let no_source = TransferChecked { from: at(8), ..accounts() };
    assert_eq!(refused(&mut ledger, program, no_source, 1, 6), EscrowError::AccountNotInitialized);
    let no_mint = TransferChecked { mint: at(8), ..accounts() };
    assert_eq!(refused(&mut ledger, program, no_mint, 1, 6), EscrowError::AccountNotInitialized);
    let no_destination = TransferChecked { to: at(8), ..accounts() };
    assert_eq!(refused(&mut ledger, program, no_destination, 1, 6), EscrowError::AccountNotInitialized);
    let wallet_source = TransferChecked { from: at(OWNER), ..accounts() };
    assert_eq!(refused(&mut ledger, program, wallet_source, 1, 6), EscrowError::AccountNotInitialized);
    let mint_as_source = TransferChecked { from: at(MINT), ..accounts() };
    assert_eq!(refused(&mut ledger, program, mint_as_source, 1, 6), EscrowError::InvalidAccountData);
    let token_as_mint = TransferChecked { mint: at(TO), ..accounts() };
    assert_eq!(refused(&mut ledger, program, token_as_mint, 1, 6), EscrowError::InvalidAccountData);
}

#[test]
fn transfer_needs_accounts_of_its_program() {
    let mut ledger = funded();
    let other = Address::new(TOKEN_2022_PROGRAM_ID);
    assert_eq!(refused(&mut ledger, other, accounts(), 1, 6), EscrowError::AccountOwnedByWrongProgram);
    let mut foreign = token(at(MINT), at(OTHER), 5);
    foreign.program = other;
    ledger.set_account(at(TO), foreign);
    assert_eq!(
        refused(&mut ledger, token_program(), accounts(), 1, 6),
        EscrowError::AccountOwnedByWrongProgram
    );
}

#[test]
fn transfer_needs_one_mint_on_both_sides() {
    let mut ledger = funded();
    ledger.set_account(at(6), mint(6));
    ledger.set_account(at(TO), token(at(6), at(OTHER), 5));
    assert_eq!(refused(&mut ledger, token_program(), accounts(), 1, 6), EscrowError::TokenMintMismatch);
    let other_mint = TransferChecked { mint: at(6), ..accounts() };
    assert_eq!(refused(&mut ledger, token_program(), other_mint, 1, 6), EscrowError::TokenMintMismatch);
}

#[test]
fn transfer_needs_the_decimals_of_the_mint() {
    let mut ledger = funded();
    assert_eq!(refused(&mut ledger, token_program(), accounts(), 1, 5), EscrowError::DecimalsMismatch);
    assert_eq!(refused(&mut ledger, token_program(), accounts(), 1, 7), EscrowError::DecimalsMismatch);
}

#[test]
fn transfer_needs_the_owner_and_its_signature() {
    let mut ledger = funded();
    let stranger = TransferChecked { authority: Party::signer(at(OTHER)), ..accounts() };
    assert_eq!(refused(&mut ledger, token_program(), stranger, 1, 6), EscrowError::TokenOwnerMismatch);
    let unsigned = TransferChecked {
        authority: Party { key: at(OWNER), is_signer: false },
        ..accounts()
    };
    assert_eq!(refused(&mut ledger, token_program(), unsigned, 1, 6), EscrowError::AccountNotSigner);
}

#[test]
fn transfer_needs_the_balance() {
    let mut ledger = funded();
    assert_eq!(refused(&mut ledger, token_program(), accounts(), 1001, 6), EscrowError::InsufficientFunds);
    assert_eq!(
        refused(&mut ledger, token_program(), accounts(), u64::MAX, 6),
        EscrowError::InsufficientFunds
    );
}

#[test]
fn transfer_needs_room_at_the_destination() {
    let mut ledger = funded();
    ledger.set_account(at(TO), token(at(MINT), at(OTHER), u64::MAX - 99));
    assert_eq!(refused(&mut ledger, token_program(), accounts(), 100, 6), EscrowError::Overflow);
    assert_eq!(ledger.transfer_checked(&token_program(), &accounts(), 99, 6), Ok(()));
    assert_eq!(ledger.token_balance(&at(TO)), u64::MAX);
    assert_eq!(ledger.token_balance(&at(FROM)), 901);
}

#[test]
fn creation_charges_the_payer_the_rent() {
    let mut ledger = funded();
    let payer = Party::signer(at(OWNER));
    let data = AccountData::Token(TokenAccount { mint: at(MINT), owner: at(OTHER), amount: 0 });
    assert_eq!(ledger.create_account(&payer, &at(6), 20, &token_program(), data), Ok(()));
    assert_eq!(ledger.lamports(&at(OWNER)), 80);
    assert_eq!(
        ledger.account(&at(6)),
        Some(Account { lamports: 20, program: token_program(), data })
    );
    assert_eq!(ledger.account(&at(FROM)), Some(token(at(MINT), at(OWNER), 1000)));
}

#[test]
fn creation_counts_what_the_address_holds() {
    let mut ledger = funded();
    let payer = Party::signer(at(OWNER));
    ledger.set_account(at(6), wallet(12));
    ledger.set_account(at(7), wallet(50));
    assert_eq!(ledger.create_account(&payer, &at(6), 20, &at(9), AccountData::Allocated), Ok(()));
    assert_eq!(ledger.lamports(&at(OWNER)), 92);
    assert_eq!(
        ledger.account(&at(6)),
        Some(Account { lamports: 20, program: at(9), data: AccountData::Allocated })
    );
    assert_eq!(ledger.create_account(&payer, &at(7), 20, &at(9), AccountData::Allocated), Ok(()));
    assert_eq!(ledger.lamports(&at(OWNER)), 92);
    assert_eq!(ledger.lamports(&at(7)), 50);
    assert!(ledger.holds_data(&at(7)));
}

#[test]
fn creation_for_nothing_needs_no_funds() {
    let mut ledger = Ledger::new(0, 0);
    let payer = Party::signer(at(OWNER));
    assert_eq!(ledger.create_account(&payer, &at(6), 0, &at(9), AccountData::Allocated), Ok(()));
    assert_eq!(ledger.account(&at(OWNER)), None);
    assert_eq!(
        ledger.account(&at(6)),
        Some(Account { lamports: 0, program: at(9), data: AccountData::Allocated })
    );
}

#[test]
fn creation_needs_signature_free_address_and_funds() {
    let mut ledger = funded();
    let before = ledger.snapshot();
    let unsigned = Party { key: at(OWNER), is_signer: false };
    assert_eq!(
        ledger.create_account(&unsigned, &at(6), 20, &at(9), AccountData::Allocated),
        Err(EscrowError::AccountNotSigner)
    );
    let payer = Party::signer(at(OWNER));
    assert_eq!(
        ledger.create_account(&payer, &at(TO), 20, &at(9), AccountData::Allocated),
        Err(EscrowError::AddressInUse)
    );
    assert_eq!(
        ledger.create_account(&payer, &at(6), 101, &at(9), AccountData::Allocated),
        Err(EscrowError::InsufficientPayerFunds)
    );
    let penniless = Party::signer(at(8));
    assert_eq!(
        ledger.create_account(&penniless, &at(6), 1, &at(9), AccountData::Allocated),
        Err(EscrowError::InsufficientPayerFunds)
    );
    let token_account = Party::signer(at(FROM));
    assert_eq!(
        ledger.create_account(&token_account, &at(6), 1, &at(9), AccountData::Allocated),
        Err(EscrowError::InsufficientPayerFunds)
    );
    assert!(same(&ledger, &before, &ALL));
    assert_eq!(ledger.create_account(&payer, &at(6), 100, &at(9), AccountData::Allocated), Ok(()));
    assert_eq!(ledger.lamports(&at(OWNER)), 0);
    assert_eq!(ledger.lamports(&at(6)), 100);
}
