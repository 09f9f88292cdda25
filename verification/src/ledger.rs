//! The balance ledger of one asset.
//!
//! The ledger is `FungibleToken` of `near_contract_standards`. Its table of
//! accounts and balances is not in the value: it lives in the host's storage
//! under the prefix that the ledger was made with, and every other ledger
//! over that prefix reads and writes the same table. So nothing here says
//! what a read returns. This module
//!
//! - reads what the ledger holds for an account (`holdings`), and states only
//!   what is in the value: the total supply;
//! - decides, from what was read, whether an operation of the ledger will go
//!   through (`can_register`, `can_deposit`, `can_withdraw`, `can_transfer`),
//!   for every table that shows what was read;
//! - names the operations as actions (`LedgerAction`). It performs none: an
//!   operation of `FungibleToken` ends the call where the decision here is
//!   an error, and whether it does depends on the storage at that moment.
//!
//! `LedgerView` is the table as the decisions and the laws speak of it.

use crate::error::AmmError;
use crate::host::account_text;
use near_contract_standards::fungible_token::FungibleToken;
use near_sdk::AccountId;
use vstd::prelude::*;

verus! {

/// `near_contract_standards::fungible_token::FungibleToken`.
#[verifier::external_type_specification]
#[verifier::external_body]
pub struct ExFungibleToken(FungibleToken);

/// The total supply of a ledger: its field `total_supply`.
pub uninterp spec fn ledger_supply(token: FungibleToken) -> u128;

/// The storage prefix of a ledger: the key prefix of its field `accounts`,
/// given when the ledger is made and never changed.
pub uninterp spec fn ledger_prefix(token: FungibleToken) -> Seq<u8>;

/// `FungibleToken::new` makes a ledger over the given storage prefix, with a
/// total supply of zero. The accounts it holds are those that the storage
/// holds under the prefix, so nothing is stated of them. (To measure what an
/// account costs, it enters an account of 64 letters `a` under the prefix
/// and removes it again.)
#[verifier::external_body]
pub(crate) fn new_token(prefix: Vec<u8>) -> (token: FungibleToken)
    ensures
        ledger_supply(token) == 0,
        ledger_prefix(token) == prefix@,
{
    FungibleToken::new(prefix)
}

/// `LookupMap::get` on the ledger's accounts: the balance that the host's
/// storage holds for the account under the ledger's prefix, if it holds one.
/// That depends on the storage, so nothing is stated of it.
#[verifier::external_body]
pub(crate) fn stored_balance(token: &FungibleToken, account: &AccountId) -> (r: Option<u128>)
{
    token.accounts.get(account)
}

/// The field `total_supply` of the ledger.
#[verifier::external_body]
pub(crate) fn stored_supply(token: &FungibleToken) -> (r: u128)
    ensures
        r == ledger_supply(*token),
{
    token.total_supply
}

/// What was read of one ledger for an operation of the pool: what it holds
/// for the pool's own account and for the account that the operation is for
/// (`None` for an account that is not registered), and its total supply.
#[derive(Clone, Copy, Debug, PartialEq, Eq, Structural)]
pub struct Holdings {
    pub pool: Option<u128>,
    pub account: Option<u128>,
    pub total_supply: u128,
}

/// One operation of a ledger, to be performed on it.
#[derive(Debug, PartialEq, Eq)]
pub enum LedgerAction {
    /// `internal_register_account`
    Register { account: AccountId },
    /// `internal_deposit`
    Deposit { account: AccountId, amount: u128 },
    /// `internal_withdraw`
    Withdraw { account: AccountId, amount: u128 },
    /// `internal_transfer`. The ledger logs the transfer with its memo, and
    /// the host ends a call whose logs outgrow what it allows a call.
    Transfer { from: AccountId, to: AccountId, amount: u128, memo: Option<String> },
}

/// An action as plain values.
pub enum ActionView {
    Register { account: Seq<char> },
    Deposit { account: Seq<char>, amount: u128 },
    Withdraw { account: Seq<char>, amount: u128 },
    Transfer { from: Seq<char>, to: Seq<char>, amount: u128, memo: Option<Seq<char>> },
}

/// A memo, if there is one, as plain values.
pub open spec fn memo_view(memo: Option<String>) -> Option<Seq<char>> {
    match memo {
        Some(text) => Some(text@),
        None => None,
    }
}

impl View for LedgerAction {
    type V = ActionView;

    open spec fn view(&self) -> ActionView {
        match *self {
            LedgerAction::Register { account } => ActionView::Register {
                account: account_text(account),
            },
            LedgerAction::Deposit { account, amount } => ActionView::Deposit {
                account: account_text(account),
                amount,
            },
            LedgerAction::Withdraw { account, amount } => ActionView::Withdraw {
                account: account_text(account),
                amount,
            },
            LedgerAction::Transfer { from, to, amount, memo } => ActionView::Transfer {
                from: account_text(from),
                to: account_text(to),
                amount,
                memo: memo_view(memo),
            },
        }
    }
}

/// What a ledger holds: the balance of each registered account, and the total
/// of what was issued.
pub struct LedgerView {
    pub balances: Map<Seq<char>, u128>,
    pub total_supply: u128,
}

/// The sum of the balances of a table of finitely many accounts.
pub open spec fn sum_of_balances(balances: Map<Seq<char>, u128>) -> nat
    decreases balances.dom().len(),
    when balances.dom().finite()
    via sum_of_balances_decreases
{
    if balances.dom().len() == 0 {
        0
    } else {
        let account = balances.dom().choose();
        balances[account] as nat + sum_of_balances(balances.remove(account))
    }
}

#[via_fn]
proof fn sum_of_balances_decreases(balances: Map<Seq<char>, u128>) {
    if balances.dom().len() != 0 {
        let account = balances.dom().choose();
        if !balances.dom().contains(account) {
            assert(balances.dom() =~= Set::<Seq<char>>::empty());
        }
    }
}

/// Whether an operation goes through, without the state it leads to.
pub open spec fn verdict<T>(outcome: Result<T, AmmError>) -> Result<(), AmmError> {
    match outcome {
        Ok(_) => Ok(()),
        Err(e) => Err(e),
    }
}

impl LedgerView {
    /// Whether the ledger accounts for all it issued: its accounts are
    /// finitely many, and together they hold the total supply.
    pub open spec fn conserved(self) -> bool {
        &&& self.balances.dom().finite()
        &&& sum_of_balances(self.balances) == self.total_supply
    }

    pub open spec fn is_registered(self, account: Seq<char>) -> bool {
        self.balances.contains_key(account)
    }

    /// What the table holds for the account: its balance if it is
    /// registered.
    pub open spec fn entry(self, account: Seq<char>) -> Option<u128> {
        if self.is_registered(account) {
            Some(self.balances[account])
        } else {
            None
        }
    }

    /// What a reader of the ledger sees who asks for the pool's own account
    /// and for one other account.
    pub open spec fn seen(self, pool: Seq<char>, account: Seq<char>) -> Holdings {
        Holdings {
            pool: self.entry(pool),
            account: self.entry(account),
            total_supply: self.total_supply,
        }
    }

    /// The balance of the account: zero if it is not registered.
    pub open spec fn balance_of(self, account: Seq<char>) -> u128 {
        if self.is_registered(account) {
            self.balances[account]
        } else {
            0
        }
    }

    /// The ledger with the account entered, holding nothing.
    pub open spec fn register(self, account: Seq<char>) -> Result<LedgerView, AmmError> {
        if self.is_registered(account) {
            Err(AmmError::AccountAlreadyRegistered)
        } else {
            Ok(LedgerView { balances: self.balances.insert(account, 0), ..self })
        }
    }

    /// The ledger with `amount` issued to the account.
    pub open spec fn deposit(self, account: Seq<char>, amount: u128) -> Result<
        LedgerView,
        AmmError,
    > {
        if !self.is_registered(account) {
            Err(AmmError::AccountNotRegistered)
        } else if self.balances[account] + amount > u128::MAX {
            Err(AmmError::BalanceOverflow)
        } else if self.total_supply + amount > u128::MAX {
            Err(AmmError::TotalSupplyOverflow)
        } else {
            Ok(
                LedgerView {
                    balances: self.balances.insert(
                        account,
                        (self.balances[account] + amount) as u128,
                    ),
                    total_supply: (self.total_supply + amount) as u128,
                },
            )
        }
    }

    /// The ledger with `amount` taken back from the account.
    pub open spec fn withdraw(self, account: Seq<char>, amount: u128) -> Result<
        LedgerView,
        AmmError,
    > {
        if !self.is_registered(account) {
            Err(AmmError::AccountNotRegistered)
        } else if self.balances[account] < amount {
            Err(AmmError::InsufficientBalance)
        } else if self.total_supply < amount {
            Err(AmmError::TotalSupplyOverflow)
        } else {
            Ok(
                LedgerView {
                    balances: self.balances.insert(
                        account,
                        (self.balances[account] - amount) as u128,
                    ),
                    total_supply: (self.total_supply - amount) as u128,
                },
            )
        }
    }

    /// The ledger with `amount` moved from one account to another: withdrawn
    /// from the first, then deposited to the second.
    pub open spec fn transfer(self, from: Seq<char>, to: Seq<char>, amount: u128) -> Result<
        LedgerView,
        AmmError,
    > {
        if from == to {
            Err(AmmError::SameAccount)
        } else if amount == 0 {
            Err(AmmError::ZeroAmount)
        } else {
            match self.withdraw(from, amount) {
                Ok(taken) => taken.deposit(to, amount),
                Err(e) => Err(e),
            }
        }
    }

    /// A ledger that shows `held` to a reader who asks for the two
    /// accounts, and holds nothing else.
    pub open spec fn showing(held: Holdings, pool: Seq<char>, account: Seq<char>) -> LedgerView {
        let of_pool = match held.pool {
            Some(balance) => Map::<Seq<char>, u128>::empty().insert(pool, balance),
            None => Map::<Seq<char>, u128>::empty(),
        };
        let balances = match held.account {
            Some(balance) => of_pool.insert(account, balance),
            None => of_pool,
        };
        LedgerView { balances, total_supply: held.total_supply }
    }

    /// The ledger after one action.
    pub open spec fn apply(self, action: ActionView) -> Result<LedgerView, AmmError> {
        match action {
            ActionView::Register { account } => self.register(account),
            ActionView::Deposit { account, amount } => self.deposit(account, amount),
            ActionView::Withdraw { account, amount } => self.withdraw(account, amount),
            ActionView::Transfer { from, to, amount, memo } => self.transfer(from, to, amount),
        }
    }
}

impl Holdings {
    /// Whether this can have been read of one ledger: where the account is
    /// the pool's own (`same_account`), the ledger holds for it what it
    /// holds for the pool.
    pub open spec fn coherent(self, same_account: bool) -> bool {
        same_account ==> self.pool == self.account
    }
}

/// Reads what the ledger holds for the pool's own account and for one other
/// account; where the two are one account it is read once. What the storage
/// holds is whatever it holds; the total supply is that of the ledger.
pub fn holdings(token: &FungibleToken, pool: &AccountId, account: &AccountId) -> (r: Holdings)
    ensures
        r.total_supply == ledger_supply(*token),
        r.coherent(account_text(*account) == account_text(*pool)),
{
    let of_pool = stored_balance(token, pool);
    let of_account = if *account == *pool {
        of_pool
    } else {
        stored_balance(token, account)
    };
    Holdings { pool: of_pool, account: of_account, total_supply: stored_supply(token) }
}

/// The total of what the ledger issued.
pub fn total_supply(token: &FungibleToken) -> (r: u128)
    ensures
        r == ledger_supply(*token),
{
    stored_supply(token)
}

/// Whether an account can be registered with a ledger that holds `entry`
/// for it.
pub fn can_register(entry: Option<u128>) -> (r: Result<(), AmmError>)
    ensures
        forall|ledger: LedgerView, account: Seq<char>|
            ledger.entry(account) == entry ==> r == verdict(#[trigger] ledger.register(account)),
{
    match entry {
        Some(_) => Err(AmmError::AccountAlreadyRegistered),
        None => Ok(()),
    }
}

/// Whether `amount` can be issued to an account, in a ledger that holds
/// `entry` for it and has issued `supply`.
pub fn can_deposit(entry: Option<u128>, supply: u128, amount: u128) -> (r: Result<(), AmmError>)
    ensures
        forall|ledger: LedgerView, account: Seq<char>|
            ledger.entry(account) == entry && ledger.total_supply == supply ==> r == verdict(
                #[trigger] ledger.deposit(account, amount),
            ),
{
    match entry {
        None => Err(AmmError::AccountNotRegistered),
        Some(balance) => {
            if balance.checked_add(amount).is_none() {
                Err(AmmError::BalanceOverflow)
            } else if supply.checked_add(amount).is_none() {
                Err(AmmError::TotalSupplyOverflow)
            } else {
                Ok(())
            }
        },
    }
}

/// Whether `amount` can be taken back from an account, in a ledger that
/// holds `entry` for it and has issued `supply`.
pub fn can_withdraw(entry: Option<u128>, supply: u128, amount: u128) -> (r: Result<(), AmmError>)
    ensures
        forall|ledger: LedgerView, account: Seq<char>|
            ledger.entry(account) == entry && ledger.total_supply == supply ==> r == verdict(
                #[trigger] ledger.withdraw(account, amount),
            ),
{
    match entry {
        None => Err(AmmError::AccountNotRegistered),
        Some(balance) => {
            if balance < amount {
                Err(AmmError::InsufficientBalance)
            } else if supply < amount {
                Err(AmmError::TotalSupplyOverflow)
            } else {
                Ok(())
            }
        },
    }
}

/// Whether `amount` can be moved between two accounts, in a ledger that
/// holds `from` for the sender and `to` for the receiver and has issued
/// `supply`; `same_account` says whether sender and receiver are one
/// account.
pub fn can_transfer(
    same_account: bool,
    from: Option<u128>,
    to: Option<u128>,
    supply: u128,
    amount: u128,
) -> (r: Result<(), AmmError>)
    ensures
        forall|ledger: LedgerView, sender: Seq<char>, receiver: Seq<char>|
            {
                &&& (sender == receiver) == same_account
                &&& ledger.entry(sender) == from
                &&& ledger.entry(receiver) == to
                &&& ledger.total_supply == supply
            } ==> r == verdict(#[trigger] ledger.transfer(sender, receiver, amount)),
{
    if same_account {
        return Err(AmmError::SameAccount);
    }
    if amount == 0 {
        return Err(AmmError::ZeroAmount);
    }
    match can_withdraw(from, supply, amount) {
        Err(e) => Err(e),
        Ok(()) => {
            // The sender's withdrawal makes room in the total supply, and it
            // leaves the receiver's balance alone.
            match to {
                None => Err(AmmError::AccountNotRegistered),
                Some(balance) => {
                    if balance.checked_add(amount).is_none() {
                        Err(AmmError::BalanceOverflow)
                    } else {
                        Ok(())
                    }
                },
            }
        },
    }
}

} // verus!
