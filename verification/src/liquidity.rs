//! Moving assets between an account and the custody of the pool.
//!
//! Adding liquidity moves an amount of one asset from the payer to the pool's
//! own account and issues the same number of pool shares to the payer.
//! Removing it moves the amount back and takes the shares back. A deposit
//! that an asset's contract announces is credited to the sender.

use crate::error::AmmError;
use crate::host::account_text;
use crate::ledger::{
    can_deposit,
    can_transfer,
    can_withdraw,
    memo_view,
    verdict,
    ActionView,
    Holdings,
    LedgerAction,
    LedgerView,
};
use crate::pool::{
    plan_view,
    planned,
    planned_with,
    LedgerSlot,
    PoolReads,
    PoolView,
    Side,
    Step,
    StepView,
    AMM,
};
use near_sdk::AccountId;
use vstd::prelude::*;

verus! {

/// The asset ledger and the ledger of shares after `amount` went from the
/// payer into custody and as many shares were issued to the payer.
pub open spec fn fund(
    asset: LedgerView,
    shares: LedgerView,
    pool: Seq<char>,
    payer: Seq<char>,
    amount: u128,
) -> Result<(LedgerView, LedgerView), AmmError> {
    match asset.transfer(payer, pool, amount) {
        Err(e) => Err(e),
        Ok(asset_after) => match shares.deposit(payer, amount) {
            Err(e) => Err(e),
            Ok(shares_after) => Ok((asset_after, shares_after)),
        },
    }
}

/// The asset ledger and the ledger of shares after `amount` went from custody
/// back to the account and as many shares were taken back from it.
pub open spec fn redeem(
    asset: LedgerView,
    shares: LedgerView,
    pool: Seq<char>,
    account: Seq<char>,
    amount: u128,
) -> Result<(LedgerView, LedgerView), AmmError> {
    match asset.transfer(pool, account, amount) {
        Err(e) => Err(e),
        Ok(asset_after) => match shares.withdraw(account, amount) {
            Err(e) => Err(e),
            Ok(shares_after) => Ok((asset_after, shares_after)),
        },
    }
}

impl PoolView {
    /// The pool after the payer added `amount` of the asset `token`.
    pub open spec fn add_liquidity(
        self,
        pool: Seq<char>,
        payer: Seq<char>,
        token: Seq<char>,
        amount: u128,
    ) -> Result<PoolView, AmmError> {
        if !self.has_metadata() {
            Err(AmmError::MetadataNotInitialized)
        } else {
            match self.side_of(token) {
                None => Err(AmmError::TokenNotSupported),
                Some(side) => match fund(self.ledger(side), self.shares, pool, payer, amount) {
                    Err(e) => Err(e),
                    Ok((asset, shares)) => Ok(self.with_ledger(side, asset).with_shares(shares)),
                },
            }
        }
    }

    /// The pool after the account took `amount` of the asset `token` out.
    pub open spec fn remove_liquidity(
        self,
        pool: Seq<char>,
        account: Seq<char>,
        token: Seq<char>,
        amount: u128,
    ) -> Result<PoolView, AmmError> {
        if !self.has_metadata() {
            Err(AmmError::MetadataNotInitialized)
        } else {
            match self.side_of(token) {
                None => Err(AmmError::TokenNotSupported),
                Some(side) => match redeem(self.ledger(side), self.shares, pool, account, amount) {
                    Err(e) => Err(e),
                    Ok((asset, shares)) => Ok(self.with_ledger(side, asset).with_shares(shares)),
                },
            }
        }
    }

    /// The pool after the contract of the asset `token` announced that
    /// `sender` sent `amount` to the pool, and the part of the amount that the
    /// pool does not keep, which is nothing.
    pub open spec fn receive_deposit(
        self,
        token: Seq<char>,
        sender: Seq<char>,
        amount: u128,
    ) -> Result<(PoolView, u128), AmmError> {
        match self.side_of(token) {
            None => Err(AmmError::TokenNotSupported),
            Some(side) => match self.ledger(side).deposit(sender, amount) {
                Err(e) => Err(e),
                Ok(asset) => Ok((self.with_ledger(side, asset), 0)),
            },
        }
    }

    /// The steps of adding liquidity: the transfer into custody, then the
    /// issue of shares.
    pub open spec fn add_liquidity_steps(
        self,
        pool: Seq<char>,
        payer: Seq<char>,
        token: Seq<char>,
        amount: u128,
        memo: Option<Seq<char>>,
    ) -> Seq<StepView> {
        seq![
            StepView {
                slot: LedgerSlot::Asset(self.side_of(token)->Some_0),
                action: ActionView::Transfer { from: payer, to: pool, amount, memo },
            },
            StepView {
                slot: LedgerSlot::Shares,
                action: ActionView::Deposit { account: payer, amount },
            },
        ]
    }

    /// The steps of removing liquidity: the transfer out of custody, then
    /// the return of shares.
    pub open spec fn remove_liquidity_steps(
        self,
        pool: Seq<char>,
        account: Seq<char>,
        token: Seq<char>,
        amount: u128,
        memo: Option<Seq<char>>,
    ) -> Seq<StepView> {
        seq![
            StepView {
                slot: LedgerSlot::Asset(self.side_of(token)->Some_0),
                action: ActionView::Transfer { from: pool, to: account, amount, memo },
            },
            StepView {
                slot: LedgerSlot::Shares,
                action: ActionView::Withdraw { account, amount },
            },
        ]
    }

    /// The one step of crediting a deposit.
    pub open spec fn receive_deposit_steps(
        self,
        token: Seq<char>,
        sender: Seq<char>,
        amount: u128,
    ) -> Seq<StepView> {
        seq![
            StepView {
                slot: LedgerSlot::Asset(self.side_of(token)->Some_0),
                action: ActionView::Deposit { account: sender, amount },
            },
        ]
    }
}

/// Whether `amount` can go from the payer into custody and as many shares be
/// issued to the payer, given what the asset ledger and the ledger of shares
/// hold; `same_account` says whether the payer is the pool's own account.
pub fn can_fund(asset: Holdings, shares: Holdings, same_account: bool, amount: u128) -> (r: Result<
    (),
    AmmError,
>)
    ensures
        forall|a: LedgerView, s: LedgerView, pool: Seq<char>, payer: Seq<char>|
            {
                &&& (payer == pool) == same_account
                &&& a.seen(pool, payer) == asset
                &&& s.seen(pool, payer) == shares
            } ==> r == verdict(#[trigger] fund(a, s, pool, payer, amount)),
{
    match can_transfer(same_account, asset.account, asset.pool, asset.total_supply, amount) {
        Err(e) => Err(e),
        Ok(()) => can_deposit(shares.account, shares.total_supply, amount),
    }
}

/// Whether `amount` can go from custody back to the account and as many
/// shares be taken back from it, given what the asset ledger and the ledger
/// of shares hold; `same_account` says whether the account is the pool's own.
pub fn can_redeem(asset: Holdings, shares: Holdings, same_account: bool, amount: u128) -> (r:
    Result<(), AmmError>)
    ensures
        forall|a: LedgerView, s: LedgerView, pool: Seq<char>, account: Seq<char>|
            {
                &&& (account == pool) == same_account
                &&& a.seen(pool, account) == asset
                &&& s.seen(pool, account) == shares
            } ==> r == verdict(#[trigger] redeem(a, s, pool, account, amount)),
{
    match can_transfer(same_account, asset.pool, asset.account, asset.total_supply, amount) {
        Err(e) => Err(e),
        Ok(()) => can_withdraw(shares.account, shares.total_supply, amount),
    }
}

impl PoolReads {
    /// What was read of the ledger of one asset.
    pub fn asset(&self, side: Side) -> (r: Holdings)
        ensures
            r == self.of(side),
    {
        match side {
            Side::A => self.asset_a,
            Side::B => self.asset_b,
        }
    }

    pub open spec fn of(self, side: Side) -> Holdings {
        match side {
            Side::A => self.asset_a,
            Side::B => self.asset_b,
        }
    }
}

impl AMM {
    /// Whether `r` is the plan for adding liquidity in every pool that
    /// shows `seen`.
    pub open spec fn adding_planned(
        &self,
        seen: PoolReads,
        pool: Seq<char>,
        payer: Seq<char>,
        token: Seq<char>,
        amount: u128,
        memo: Option<Seq<char>>,
        r: Result<Vec<Step>, AmmError>,
    ) -> bool {
        forall|s: PoolView| #[trigger]
            self.sees(s, seen, pool, payer) ==> planned(
                s.add_liquidity(pool, payer, token, amount),
                s.add_liquidity_steps(pool, payer, token, amount, memo),
                r,
            )
    }

    /// Whether `r` is the plan for removing liquidity in every pool that
    /// shows `seen`.
    pub open spec fn removing_planned(
        &self,
        seen: PoolReads,
        pool: Seq<char>,
        account: Seq<char>,
        token: Seq<char>,
        amount: u128,
        memo: Option<Seq<char>>,
        r: Result<Vec<Step>, AmmError>,
    ) -> bool {
        forall|s: PoolView| #[trigger]
            self.sees(s, seen, pool, account) ==> planned(
                s.remove_liquidity(pool, account, token, amount),
                s.remove_liquidity_steps(pool, account, token, amount, memo),
                r,
            )
    }

    /// Whether `r` is the plan for crediting a deposit in every pool that
    /// shows `seen`.
    pub open spec fn deposit_planned(
        &self,
        seen: PoolReads,
        pool: Seq<char>,
        token: Seq<char>,
        sender: Seq<char>,
        amount: u128,
        r: Result<(Vec<Step>, u128), AmmError>,
    ) -> bool {
        forall|s: PoolView| #[trigger]
            self.sees(s, seen, pool, sender) ==> planned_with(
                s.receive_deposit(token, sender, amount),
                s.receive_deposit_steps(token, sender, amount),
                r,
            )
    }

    /// Plans adding `amount` of the asset `token_name` to the pool for the
    /// payer: the amount is to go from the payer's balance to that of `pool`,
    /// the pool's own account, and the payer is to get `amount` pool shares.
    /// `seen` is what the ledgers hold for the two accounts. Refused if a
    /// descriptor is missing, if the asset is not one of the pool's, if the
    /// transfer would be refused or if the shares could not be issued.
    pub fn add_liquidity(
        &self,
        seen: &PoolReads,
        pool: &AccountId,
        payer: &AccountId,
        token_name: &AccountId,
        amount: u128,
        memo: Option<String>,
    ) -> (r: Result<Vec<Step>, AmmError>)
        ensures
            self.adding_planned(
                *seen,
                account_text(*pool),
                account_text(*payer),
                account_text(*token_name),
                amount,
                memo_view(memo),
                r,
            ),
    {
        match self.check_meta() {
            Err(e) => {
                return Err(e);
            },
            Ok(()) => {},
        }
        let side = match self.side_of(token_name) {
            Some(side) => side,
            None => {
                return Err(AmmError::TokenNotSupported);
            },
        };
        match can_fund(seen.asset(side), seen.shares, *payer == *pool, amount) {
            Err(e) => {
                return Err(e);
            },
            Ok(()) => {},
        }
        let ghost memo_text = memo_view(memo);
        let mut steps: Vec<Step> = Vec::new();
        steps.push(
            Step {
                slot: LedgerSlot::Asset(side),
                action: LedgerAction::Transfer {
                    from: payer.clone(),
                    to: pool.clone(),
                    amount,
                    memo,
                },
            },
        );
        steps.push(
            Step {
                slot: LedgerSlot::Shares,
                action: LedgerAction::Deposit { account: payer.clone(), amount },
            },
        );
        proof {
            assert forall|s: PoolView| #[trigger]
                self.sees(s, *seen, account_text(*pool), account_text(*payer)) implies planned(
                s.add_liquidity(
                    account_text(*pool),
                    account_text(*payer),
                    account_text(*token_name),
                    amount,
                ),
                s.add_liquidity_steps(
                    account_text(*pool),
                    account_text(*payer),
                    account_text(*token_name),
                    amount,
                    memo_text,
                ),
                Ok::<Vec<Step>, AmmError>(steps),
            ) by {
                assert(plan_view(steps@) =~= s.add_liquidity_steps(
                    account_text(*pool),
                    account_text(*payer),
                    account_text(*token_name),
                    amount,
                    memo_text,
                ));
            }
        }
        Ok(steps)
    }

    /// Plans taking `amount` of the asset `token_name` out of the pool for
    /// the account: the amount is to go from the balance of `pool`, the
    /// pool's own account, to that of the account, which is to give `amount`
    /// pool shares back. `seen` is what the ledgers hold for the two
    /// accounts. Refused if a descriptor is missing, if the asset is not one
    /// of the pool's, if the transfer would be refused or if the account
    /// holds fewer shares.
    pub fn remove_liquidity(
        &self,
        seen: &PoolReads,
        pool: &AccountId,
        account: &AccountId,
        token_name: &AccountId,
        amount: u128,
        memo: Option<String>,
    ) -> (r: Result<Vec<Step>, AmmError>)
        ensures
            self.removing_planned(
                *seen,
                account_text(*pool),
                account_text(*account),
                account_text(*token_name),
                amount,
                memo_view(memo),
                r,
            ),
    {
        match self.check_meta() {
            Err(e) => {
                return Err(e);
            },
            Ok(()) => {},
        }
        let side = match self.side_of(token_name) {
            Some(side) => side,
            None => {
                return Err(AmmError::TokenNotSupported);
            },
        };
        match can_redeem(seen.asset(side), seen.shares, *account == *pool, amount) {
            Err(e) => {
                return Err(e);
            },
            Ok(()) => {},
        }
        let ghost memo_text = memo_view(memo);
        let mut steps: Vec<Step> = Vec::new();
        steps.push(
            Step {
                slot: LedgerSlot::Asset(side),
                action: LedgerAction::Transfer {
                    from: pool.clone(),
                    to: account.clone(),
                    amount,
                    memo,
                },
            },
        );
        steps.push(
            Step {
                slot: LedgerSlot::Shares,
                action: LedgerAction::Withdraw { account: account.clone(), amount },
            },
        );
        proof {
            assert forall|s: PoolView| #[trigger]
                self.sees(s, *seen, account_text(*pool), account_text(*account)) implies planned(
                s.remove_liquidity(
                    account_text(*pool),
                    account_text(*account),
                    account_text(*token_name),
                    amount,
                ),
                s.remove_liquidity_steps(
                    account_text(*pool),
                    account_text(*account),
                    account_text(*token_name),
                    amount,
                    memo_text,
                ),
                Ok::<Vec<Step>, AmmError>(steps),
            ) by {
                assert(plan_view(steps@) =~= s.remove_liquidity_steps(
                    account_text(*pool),
                    account_text(*account),
                    account_text(*token_name),
                    amount,
                    memo_text,
                ));
            }
        }
        Ok(steps)
    }

    /// Plans crediting `amount` of the asset `token_name` to the sender, and
    /// returns with the plan how much of the amount the pool does not keep:
    /// nothing. `seen` is what the ledgers hold for the sender. Refused if
    /// the asset is not one of the pool's or if the amount could not be
    /// issued.
    pub fn receive_deposit(
        &self,
        seen: &PoolReads,
        pool: &AccountId,
        token_name: &AccountId,
        sender_id: &AccountId,
        amount: u128,
    ) -> (r: Result<(Vec<Step>, u128), AmmError>)
        ensures
            self.deposit_planned(
                *seen,
                account_text(*pool),
                account_text(*token_name),
                account_text(*sender_id),
                amount,
                r,
            ),
            r is Ok ==> r->Ok_0.1 == 0,
    {
        let side = match self.side_of(token_name) {
            Some(side) => side,
            None => {
                return Err(AmmError::TokenNotSupported);
            },
        };
        let held = seen.asset(side);
        match can_deposit(held.account, held.total_supply, amount) {
            Err(e) => {
                return Err(e);
            },
            Ok(()) => {},
        }
        let mut steps: Vec<Step> = Vec::new();
        steps.push(
            Step {
                slot: LedgerSlot::Asset(side),
                action: LedgerAction::Deposit { account: sender_id.clone(), amount },
            },
        );
        proof {
            assert forall|s: PoolView| #[trigger]
                self.sees(
                    s,
                    *seen,
                    account_text(*pool),
                    account_text(*sender_id),
                ) implies planned_with(
                s.receive_deposit(account_text(*token_name), account_text(*sender_id), amount),
                s.receive_deposit_steps(
                    account_text(*token_name),
                    account_text(*sender_id),
                    amount,
                ),
                Ok::<(Vec<Step>, u128), AmmError>((steps, 0)),
            ) by {
                assert(plan_view(steps@) =~= s.receive_deposit_steps(
                    account_text(*token_name),
                    account_text(*sender_id),
                    amount,
                ));
            }
        }
        Ok((steps, 0))
    }

    /// Plans adding `token_amount` of the asset to the pool for the account
    /// that makes the call, the pool's own account being the one that owns
    /// the running contract.
    pub fn add_token_to_pool(
        &self,
        token_name: AccountId,
        token_amount: u128,
        memo: Option<String>,
    ) -> (r: Result<Vec<Step>, AmmError>)
        ensures
            exists|seen: PoolReads, pool: Seq<char>, payer: Seq<char>|
                seen.coherent(payer == pool) && #[trigger] self.adding_planned(
                    seen,
                    pool,
                    payer,
                    account_text(token_name),
                    token_amount,
                    memo_view(memo),
                    r,
                ),
    {
        let pool_owner_id = near_sdk::env::current_account_id();
        let payer_id = near_sdk::env::predecessor_account_id();
        let seen = self.read(&pool_owner_id, &payer_id);
        self.add_liquidity(&seen, &pool_owner_id, &payer_id, &token_name, token_amount, memo)
    }

    /// Plans taking `token_amount` of the asset out of the pool for the
    /// account that makes the call, the pool's own account being the one
    /// that owns the running contract.
    pub fn exclude_token_from_pool(
        &self,
        token_name: AccountId,
        token_amount: u128,
        memo: Option<String>,
    ) -> (r: Result<Vec<Step>, AmmError>)
        ensures
            exists|seen: PoolReads, pool: Seq<char>, account: Seq<char>|
                seen.coherent(account == pool) && #[trigger] self.removing_planned(
                    seen,
                    pool,
                    account,
                    account_text(token_name),
                    token_amount,
                    memo_view(memo),
                    r,
                ),
    {
        let pool_owner_id = near_sdk::env::current_account_id();
        let predecessor_account_id = near_sdk::env::predecessor_account_id();
        let seen = self.read(&pool_owner_id, &predecessor_account_id);
        self.remove_liquidity(
            &seen,
            &pool_owner_id,
            &predecessor_account_id,
            &token_name,
            token_amount,
            memo,
        )
    }

    /// Plans crediting `amount` to the sender in the ledger of the asset
    /// whose contract makes the call, and returns with the plan how much of
    /// the amount the pool does not keep: nothing.
    pub fn ft_on_transfer(&self, sender_id: AccountId, amount: u128, msg: String) -> (r: Result<
        (Vec<Step>, u128),
        AmmError,
    >)
        ensures
            exists|seen: PoolReads, pool: Seq<char>, token: Seq<char>|
                seen.coherent(account_text(sender_id) == pool) && #[trigger] self.deposit_planned(
                    seen,
                    pool,
                    token,
                    account_text(sender_id),
                    amount,
                    r,
                ),
            r is Ok ==> r->Ok_0.1 == 0,
    {
        let token_name = near_sdk::env::predecessor_account_id();
        let pool = near_sdk::env::current_account_id();
        let seen = self.read(&pool, &sender_id);
        self.receive_deposit(&seen, &pool, &token_name, &sender_id, amount)
    }
}

} // verus!
