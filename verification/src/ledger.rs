//! The ledger: every account by its address, and the primitives of the host
//! runtime that change it.

use crate::address::Address;
use crate::error::EscrowError;
use crate::programs::is_token_program;
use crate::programs::spec_is_token_program;
use crate::state::Account;
use crate::state::AccountData;
use crate::state::Mint;
use crate::state::Offer;
use crate::state::Party;
use crate::state::TokenAccount;
use vstd::prelude::*;

verus! {

/// The accounts of a checked transfer: `authority` moves tokens of `mint`
/// from `from` to `to`.
#[derive(Clone, Copy, Debug, PartialEq, Eq)]
pub struct TransferChecked {
    pub from: Address,
    pub mint: Address,
    pub to: Address,
    pub authority: Party,
}

/// What a ledger holds: the accounts by address, and what the ledger charges
/// a payer for a new offer account and for a new token account.
#[verifier::ext_equal]
pub struct LedgerState {
    pub accounts: Map<Address, Account>,
    pub offer_rent: u64,
    pub token_account_rent: u64,
}

impl LedgerState {
    /// Whether `address` holds data: an account is there, and it is more than
    /// a wallet.
    pub open spec fn holds_data(self, address: Address) -> bool {
        self.accounts.contains_key(address) && !(self.accounts[address].data is Wallet)
    }

    /// The lamports at `address`.
    pub open spec fn lamports(self, address: Address) -> u64 {
        if self.accounts.contains_key(address) {
            self.accounts[address].lamports
        } else {
            0
        }
    }

    /// The lamports that `address` can pay with: those of a wallet.
    pub open spec fn spendable(self, address: Address) -> u64 {
        if self.accounts.contains_key(address) && self.accounts[address].data is Wallet {
            self.accounts[address].lamports
        } else {
            0
        }
    }

    /// The token balance at `address`; zero where no token account is.
    pub open spec fn token_balance(self, address: Address) -> u64 {
        if self.accounts.contains_key(address) {
            match self.accounts[address].data {
                AccountData::Token(token) => token.amount,
                _ => 0,
            }
        } else {
            0
        }
    }

    /// The offer at `address`, where one is.
    pub open spec fn offer(self, address: Address) -> Option<Offer> {
        if self.accounts.contains_key(address) {
            match self.accounts[address].data {
                AccountData::Offer(offer) => Some(offer),
                _ => None,
            }
        } else {
            None
        }
    }

    /// The token account at `address` as `program` sees it.
    pub open spec fn token_account(self, program: Address, address: Address) -> Result<
        TokenAccount,
        EscrowError,
    > {
        if !self.holds_data(address) {
            Err(EscrowError::AccountNotInitialized)
        } else if self.accounts[address].program != program {
            Err(EscrowError::AccountOwnedByWrongProgram)
        } else {
            match self.accounts[address].data {
                AccountData::Token(token) => Ok(token),
                _ => Err(EscrowError::InvalidAccountData),
            }
        }
    }

    /// The mint at `address` as `program` sees it.
    pub open spec fn mint(self, program: Address, address: Address) -> Result<Mint, EscrowError> {
        if !self.holds_data(address) {
            Err(EscrowError::AccountNotInitialized)
        } else if self.accounts[address].program != program {
            Err(EscrowError::AccountOwnedByWrongProgram)
        } else {
            match self.accounts[address].data {
                AccountData::Mint(mint) => Ok(mint),
                _ => Err(EscrowError::InvalidAccountData),
            }
        }
    }

    /// The ledger with `account` at `address`.
    pub open spec fn with_account(self, address: Address, account: Account) -> LedgerState {
        LedgerState { accounts: self.accounts.insert(address, account), ..self }
    }

    /// The ledger with the token balance at `address` set to `amount`.
    pub open spec fn with_token_balance(self, address: Address, amount: u64) -> LedgerState
        recommends
            self.accounts.contains_key(address),
            self.accounts[address].data is Token,
    {
        let account = self.accounts[address];
        let token = account.data->Token_0;
        self.with_account(
            address,
            Account { data: AccountData::Token(TokenAccount { amount, ..token }), ..account },
        )
    }

    /// The ledger with the lamports at `address` set to `lamports`.
    pub open spec fn with_lamports(self, address: Address, lamports: u64) -> LedgerState
        recommends
            self.accounts.contains_key(address),
    {
        self.with_account(address, Account { lamports, ..self.accounts[address] })
    }

    /// Why the token program `program` refuses the transfer, if it does. The
    /// checks come in this order: the program, the source, the mint, the
    /// destination, the mints of both token accounts, the decimals, the
    /// authority, its signature, the source balance, the destination's room.
    pub open spec fn transfer_refusal(
        self,
        program: Address,
        accounts: TransferChecked,
        amount: u64,
        decimals: u8,
    ) -> Option<EscrowError> {
        let from = self.token_account(program, accounts.from);
        let mint = self.mint(program, accounts.mint);
        let to = self.token_account(program, accounts.to);
        if !spec_is_token_program(program) {
            Some(EscrowError::InvalidProgramId)
        } else if from is Err {
            Some(from->Err_0)
        } else if mint is Err {
            Some(mint->Err_0)
        } else if to is Err {
            Some(to->Err_0)
        } else if from->Ok_0.mint != accounts.mint || to->Ok_0.mint != accounts.mint {
            Some(EscrowError::TokenMintMismatch)
        } else if mint->Ok_0.decimals != decimals {
            Some(EscrowError::DecimalsMismatch)
        } else if from->Ok_0.owner != accounts.authority.key {
            Some(EscrowError::TokenOwnerMismatch)
        } else if !accounts.authority.is_signer {
            Some(EscrowError::AccountNotSigner)
        } else if from->Ok_0.amount < amount {
            Some(EscrowError::InsufficientFunds)
        } else if accounts.from != accounts.to && to->Ok_0.amount + amount > u64::MAX {
            Some(EscrowError::Overflow)
        } else {
            None
        }
    }

    /// The ledger after `amount` has left `from` and reached `to`. A transfer
    /// from an account to itself changes nothing.
    pub open spec fn transferred(self, from: Address, to: Address, amount: u64) -> LedgerState {
        if from == to {
            self
        } else {
            self.with_token_balance(
                from,
                (self.token_balance(from) - amount) as u64,
            ).with_token_balance(to, (self.token_balance(to) + amount) as u64)
        }
    }

    /// The checked transfer of the token interface: the ledger after it, or
    /// why it was refused.
    pub open spec fn transfer_checked(
        self,
        program: Address,
        accounts: TransferChecked,
        amount: u64,
        decimals: u8,
    ) -> Result<LedgerState, EscrowError> {
        match self.transfer_refusal(program, accounts, amount, decimals) {
            Some(e) => Err(e),
            None => Ok(self.transferred(accounts.from, accounts.to, amount)),
        }
    }

    /// What `payer` owes for an account with `rent` lamports at `address`:
    /// the rent less what the address already holds.
    pub open spec fn rent_due(self, address: Address, rent: u64) -> u64 {
        if rent > self.lamports(address) {
            (rent - self.lamports(address)) as u64
        } else {
            0
        }
    }

    /// Why the creation of an account at `address` is refused, if it is. The
    /// checks come in this order: the payer's signature, the address, the
    /// payer's funds.
    pub open spec fn creation_refusal(self, payer: Party, address: Address, rent: u64) -> Option<
        EscrowError,
    > {
        if !payer.is_signer {
            Some(EscrowError::AccountNotSigner)
        } else if self.holds_data(address) {
            Some(EscrowError::AddressInUse)
        } else if self.spendable(payer.key) < self.rent_due(address, rent) {
            Some(EscrowError::InsufficientPayerFunds)
        } else {
            None
        }
    }

    /// The ledger after `payer` has paid `due` lamports towards `address`.
    pub open spec fn charged(self, payer: Address, due: u64) -> LedgerState {
        if due == 0 {
            self
        } else {
            self.with_lamports(payer, (self.lamports(payer) - due) as u64)
        }
    }

    /// The ledger after an account of `program` with `data` has been created
    /// at `address`, `payer` having paid what the rent asks beyond the
    /// lamports that the address held.
    pub open spec fn created(
        self,
        payer: Address,
        address: Address,
        rent: u64,
        program: Address,
        data: AccountData,
    ) -> LedgerState {
        let due = self.rent_due(address, rent);
        let paid = self.charged(payer, due);
        paid.with_account(
            address,
            Account { lamports: (paid.lamports(address) + due) as u64, program, data },
        )
    }

    /// The account creation primitive: the ledger after it, or why it was
    /// refused.
    pub open spec fn create_account(
        self,
        payer: Party,
        address: Address,
        rent: u64,
        program: Address,
        data: AccountData,
    ) -> Result<LedgerState, EscrowError> {
        match self.creation_refusal(payer, address, rent) {
            Some(e) => Err(e),
            None => Ok(self.created(payer.key, address, rent, program, data)),
        }
    }
}

/// An account with its address.
#[derive(Clone, Copy)]
struct Entry {
    address: Address,
    account: Account,
}

/// The accounts of the ledger. No two of them share an address.
pub struct Ledger {
    entries: Vec<Entry>,
    offer_rent: u64,
    token_account_rent: u64,
}

spec fn listed(entries: Seq<Entry>, address: Address) -> bool {
    exists|i: int| 0 <= i < entries.len() && entries[i].address == address
}

spec fn place(entries: Seq<Entry>, address: Address) -> int {
    choose|i: int| 0 <= i < entries.len() && entries[i].address == address
}

spec fn distinct(entries: Seq<Entry>) -> bool {
    forall|i: int, j: int|
        0 <= i < j < entries.len() ==> entries[i].address != entries[j].address
}

spec fn accounts_of(entries: Seq<Entry>) -> Map<Address, Account> {
    Map::new(
        |address: Address| listed(entries, address),
        |address: Address| entries[place(entries, address)].account,
    )
}

proof fn lemma_place(entries: Seq<Entry>, i: int)
    requires
        distinct(entries),
        0 <= i < entries.len(),
    ensures
        listed(entries, entries[i].address),
        place(entries, entries[i].address) == i,
        accounts_of(entries).contains_key(entries[i].address),
        accounts_of(entries)[entries[i].address] == entries[i].account,
{
    let j = place(entries, entries[i].address);
    assert(0 <= j < entries.len() && entries[j].address == entries[i].address);
    if j < i {
        assert(entries[j].address != entries[i].address);
    } else if i < j {
        assert(entries[i].address != entries[j].address);
    }
}

proof fn lemma_push(entries: Seq<Entry>, entry: Entry)
    requires
        distinct(entries),
        !listed(entries, entry.address),
    ensures
        distinct(entries.push(entry)),
        accounts_of(entries.push(entry)) == accounts_of(entries).insert(
            entry.address,
            entry.account,
        ),
{
    let after = entries.push(entry);
    assert forall|i: int, j: int| 0 <= i < j < after.len() implies after[i].address
        != after[j].address by {
        if j == entries.len() {
            assert(entries[i].address == after[i].address);
        }
    }
    assert forall|a: Address| accounts_of(after).contains_key(a) <==> accounts_of(
        entries,
    ).insert(entry.address, entry.account).contains_key(a) by {
        if listed(after, a) {
            let i = place(after, a);
            if i < entries.len() {
                assert(entries[i].address == a);
            }
        }
        if listed(entries, a) {
            let i = place(entries, a);
            assert(after[i].address == a);
        }
        if a == entry.address {
            assert(after[entries.len() as int].address == a);
        }
    }
    assert forall|a: Address| accounts_of(after).contains_key(a) implies accounts_of(after)[a]
        == accounts_of(entries).insert(entry.address, entry.account)[a] by {
        let i = place(after, a);
        lemma_place(after, i);
        if i < entries.len() {
            assert(entries[i] == after[i]);
            lemma_place(entries, i);
        }
    }
    assert(accounts_of(after) =~= accounts_of(entries).insert(entry.address, entry.account));
}

proof fn lemma_update(entries: Seq<Entry>, i: int, account: Account)
    requires
        distinct(entries),
        0 <= i < entries.len(),
    ensures
        distinct(entries.update(i, Entry { address: entries[i].address, account })),
        accounts_of(entries.update(i, Entry { address: entries[i].address, account }))
            == accounts_of(entries).insert(entries[i].address, account),
{
    let address = entries[i].address;
    let after = entries.update(i, Entry { address, account });
    assert forall|j: int, k: int| 0 <= j < k < after.len() implies after[j].address
        != after[k].address by {
        assert(after[j].address == entries[j].address);
        assert(after[k].address == entries[k].address);
    }
    assert forall|a: Address| accounts_of(after).contains_key(a) <==> accounts_of(
        entries,
    ).insert(address, account).contains_key(a) by {
        if listed(after, a) {
            let j = place(after, a);
            assert(entries[j].address == a);
        }
        if listed(entries, a) {
            let j = place(entries, a);
            assert(after[j].address == a);
        }
        if a == address {
            assert(after[i].address == a);
        }
    }
    assert forall|a: Address| accounts_of(after).contains_key(a) implies accounts_of(after)[a]
        == accounts_of(entries).insert(address, account)[a] by {
        let j = place(after, a);
        lemma_place(after, j);
        assert(entries[j].address == a);
        lemma_place(entries, j);
    }
    assert(accounts_of(after) =~= accounts_of(entries).insert(address, account));
}

impl View for Ledger {
    type V = LedgerState;

    closed spec fn view(&self) -> LedgerState {
        LedgerState {
            accounts: accounts_of(self.entries@),
            offer_rent: self.offer_rent,
            token_account_rent: self.token_account_rent,
        }
    }
}

impl Ledger {
    /// No two accounts share an address. Every ledger that this module hands
    /// out is well formed.
    pub closed spec fn wf(&self) -> bool {
        distinct(self.entries@)
    }

    /// A ledger without accounts that charges `offer_rent` lamports for a new
    /// offer account and `token_account_rent` for a new token account.
    pub fn new(offer_rent: u64, token_account_rent: u64) -> (ledger: Ledger)
        ensures
            ledger.wf(),
            ledger@ == (LedgerState {
                accounts: Map::<Address, Account>::empty(),
                offer_rent,
                token_account_rent,
            }),
    {
        let ledger = Ledger { entries: Vec::new(), offer_rent, token_account_rent };
        assert(ledger@.accounts =~= Map::<Address, Account>::empty());
        ledger
    }

    /// What the ledger charges for a new offer account.
    pub fn offer_rent(&self) -> (rent: u64)
        ensures
            rent == self@.offer_rent,
    {
        self.offer_rent
    }

    /// What the ledger charges for a new token account.
    pub fn token_account_rent(&self) -> (rent: u64)
        ensures
            rent == self@.token_account_rent,
    {
        self.token_account_rent
    }

    fn position(&self, address: &Address) -> (found: Option<usize>)
        ensures
            match found {
                Some(i) => i < self.entries@.len() && self.entries@[i as int].address == *address,
                None => !listed(self.entries@, *address),
            },
    {
        let mut i: usize = 0;
        while i < self.entries.len()
            invariant
                i <= self.entries@.len(),
                forall|j: int| 0 <= j < i ==> self.entries@[j].address != *address,
            decreases self.entries@.len() - i,
        {
            if self.entries[i].address == *address {
                return Some(i);
            }
            i += 1;
        }
        None
    }

    /// The account at `address`, if one is there.
    pub fn account(&self, address: &Address) -> (found: Option<Account>)
        requires
            self.wf(),
        ensures
            found == (if self@.accounts.contains_key(*address) {
                Some(self@.accounts[*address])
            } else {
                None
            }),
    {
        match self.position(address) {
            Some(i) => {
                proof {
                    lemma_place(self.entries@, i as int);
                }
                Some(self.entries[i].account)
            },
            None => None,
        }
    }

    /// Puts `account` at `address`, in place of what was there.
    pub fn set_account(&mut self, address: Address, account: Account)
        requires
            old(self).wf(),
        ensures
            final(self).wf(),
            final(self)@ == old(self)@.with_account(address, account),
    {
        match self.position(&address) {
            Some(i) => {
                proof {
                    lemma_update(self.entries@, i as int, account);
                }
                self.entries.set(i, Entry { address, account });
            },
            None => {
                proof {
                    lemma_push(self.entries@, Entry { address, account });
                }
                self.entries.push(Entry { address, account });
            },
        }
    }

    /// The lamports at `address`.
    pub fn lamports(&self, address: &Address) -> (lamports: u64)
        requires
            self.wf(),
        ensures
            lamports == self@.lamports(*address),
    {
        match self.account(address) {
            Some(account) => account.lamports,
            None => 0,
        }
    }

    /// The lamports that `address` can pay with.
    pub fn spendable(&self, address: &Address) -> (lamports: u64)
        requires
            self.wf(),
        ensures
            lamports == self@.spendable(*address),
    {
        match self.account(address) {
            Some(account) => match account.data {
                AccountData::Wallet => account.lamports,
                _ => 0,
            },
            None => 0,
        }
    }

    /// Whether `address` holds data.
    pub fn holds_data(&self, address: &Address) -> (held: bool)
        requires
            self.wf(),
        ensures
            held == self@.holds_data(*address),
    {
        match self.account(address) {
            Some(account) => match account.data {
                AccountData::Wallet => false,
                _ => true,
            },
            None => false,
        }
    }

    /// The token balance at `address`; zero where no token account is.
    pub fn token_balance(&self, address: &Address) -> (amount: u64)
        requires
            self.wf(),
        ensures
            amount == self@.token_balance(*address),
    {
        match self.account(address) {
            Some(account) => match account.data {
                AccountData::Token(token) => token.amount,
                _ => 0,
            },
            None => 0,
        }
    }

    /// The offer at `address`, where one is.
    pub fn offer(&self, address: &Address) -> (offer: Option<Offer>)
        requires
            self.wf(),
        ensures
            offer == self@.offer(*address),
    {
        match self.account(address) {
            Some(account) => match account.data {
                AccountData::Offer(offer) => Some(offer),
                _ => None,
            },
            None => None,
        }
    }

    /// The token account at `address` as `program` sees it.
    pub fn token_account(&self, program: &Address, address: &Address) -> (found: Result<
        TokenAccount,
        EscrowError,
    >)
        requires
            self.wf(),
        ensures
            found == self@.token_account(*program, *address),
    {
        match self.account(address) {
            Some(account) => match account.data {
                AccountData::Wallet => Err(EscrowError::AccountNotInitialized),
                AccountData::Token(token) => if account.program == *program {
                    Ok(token)
                } else {
                    Err(EscrowError::AccountOwnedByWrongProgram)
                },
                _ => if account.program == *program {
                    Err(EscrowError::InvalidAccountData)
                } else {
                    Err(EscrowError::AccountOwnedByWrongProgram)
                },
            },
            None => Err(EscrowError::AccountNotInitialized),
        }
    }

    /// The mint at `address` as `program` sees it.
    pub fn mint(&self, program: &Address, address: &Address) -> (found: Result<Mint, EscrowError>)
        requires
            self.wf(),
        ensures
            found == self@.mint(*program, *address),
    {
        match self.account(address) {
            Some(account) => match account.data {
                AccountData::Wallet => Err(EscrowError::AccountNotInitialized),
                AccountData::Mint(mint) => if account.program == *program {
                    Ok(mint)
                } else {
                    Err(EscrowError::AccountOwnedByWrongProgram)
                },
                _ => if account.program == *program {
                    Err(EscrowError::InvalidAccountData)
                } else {
                    Err(EscrowError::AccountOwnedByWrongProgram)
                },
            },
            None => Err(EscrowError::AccountNotInitialized),
        }
    }

    /// A copy of the ledger, to work on while this one stays as it is.
    pub fn snapshot(&self) -> (copy: Ledger)
        requires
            self.wf(),
        ensures
            copy.wf(),
            copy@ == self@,
    {
        let mut entries: Vec<Entry> = Vec::new();
        let mut i: usize = 0;
        while i < self.entries.len()
            invariant
                i <= self.entries@.len(),
                entries@ == self.entries@.subrange(0, i as int),
            decreases self.entries@.len() - i,
        {
            entries.push(self.entries[i]);
            assert(entries@ =~= self.entries@.subrange(0, i + 1));
            i += 1;
        }
        assert(entries@ =~= self.entries@);
        Ledger {
            entries,
            offer_rent: self.offer_rent,
            token_account_rent: self.token_account_rent,
        }
    }

    fn set_token_balance(&mut self, address: &Address, amount: u64)
        requires
            old(self).wf(),
            old(self)@.accounts.contains_key(*address),
            old(self)@.accounts[*address].data is Token,
        ensures
            final(self).wf(),
            final(self)@ == old(self)@.with_token_balance(*address, amount),
    {
        match self.account(address) {
            Some(account) => match account.data {
                AccountData::Token(token) => {
                    self.set_account(
                        *address,
                        Account {
                            lamports: account.lamports,
                            program: account.program,
                            data: AccountData::Token(
                                TokenAccount { mint: token.mint, owner: token.owner, amount },
                            ),
                        },
                    );
                },
                _ => {},
            },
            None => {},
        }
    }

    /// The checked transfer of the token interface: `accounts.authority`
    /// moves `amount` of `accounts.mint` from `accounts.from` to
    /// `accounts.to`, both held by the token program `program`. A refused
    /// transfer changes nothing.
    pub fn transfer_checked(
        &mut self,
        program: &Address,
        accounts: &TransferChecked,
        amount: u64,
        decimals: u8,
    ) -> (done: Result<(), EscrowError>)
        requires
            old(self).wf(),
        ensures
            final(self).wf(),
            match old(self)@.transfer_checked(*program, *accounts, amount, decimals) {
                Ok(after) => done is Ok && final(self)@ == after,
                Err(e) => done == Err::<(), EscrowError>(e) && final(self)@ == old(self)@,
            },
    {
        if !is_token_program(*program) {
            return Err(EscrowError::InvalidProgramId);
        }
        let from = match self.token_account(program, &accounts.from) {
            Ok(token) => token,
            Err(e) => {
                return Err(e);
            },
        };
        let mint = match self.mint(program, &accounts.mint) {
            Ok(mint) => mint,
            Err(e) => {
                return Err(e);
            },
        };
        let to = match self.token_account(program, &accounts.to) {
            Ok(token) => token,
            Err(e) => {
                return Err(e);
            },
        };
        if from.mint != accounts.mint || to.mint != accounts.mint {
            return Err(EscrowError::TokenMintMismatch);
        }
        if mint.decimals != decimals {
            return Err(EscrowError::DecimalsMismatch);
        }
        if from.owner != accounts.authority.key {
            return Err(EscrowError::TokenOwnerMismatch);
        }
        if !accounts.authority.is_signer {
            return Err(EscrowError::AccountNotSigner);
        }
        if from.amount < amount {
            return Err(EscrowError::InsufficientFunds);
        }
        if accounts.from != accounts.to {
            if to.amount > u64::MAX - amount {
                return Err(EscrowError::Overflow);
            }
            self.set_token_balance(&accounts.from, from.amount - amount);
            self.set_token_balance(&accounts.to, to.amount + amount);
        }
        Ok(())
    }

    /// The account creation primitive: creates an account of `program` with
    /// `data` at `address`, which has to hold no data yet. `payer` pays what
    /// `rent` asks beyond the lamports that the address holds. A refused
    /// creation changes nothing.
    pub fn create_account(
        &mut self,
        payer: &Party,
        address: &Address,
        rent: u64,
        program: &Address,
        data: AccountData,
    ) -> (done: Result<(), EscrowError>)
        requires
            old(self).wf(),
        ensures
            final(self).wf(),
            match old(self)@.create_account(*payer, *address, rent, *program, data) {
                Ok(after) => done is Ok && final(self)@ == after,
                Err(e) => done == Err::<(), EscrowError>(e) && final(self)@ == old(self)@,
            },
    {
        if !payer.is_signer {
            return Err(EscrowError::AccountNotSigner);
        }
        if self.holds_data(address) {
            return Err(EscrowError::AddressInUse);
        }
        let held = self.lamports(address);
        let due: u64 = if rent > held {
            rent - held
        } else {
            0
        };
        if self.spendable(&payer.key) < due {
            return Err(EscrowError::InsufficientPayerFunds);
        }
        if due > 0 {
            match self.account(&payer.key) {
                Some(wallet) => {
                    self.set_account(
                        payer.key,
                        Account {
                            lamports: wallet.lamports - due,
                            program: wallet.program,
                            data: wallet.data,
                        },
                    );
                },
                None => {},
            }
        }
        let now = self.lamports(address);
        self.set_account(*address, Account { lamports: now + due, program: *program, data });
        Ok(())
    }
}

} // verus!
