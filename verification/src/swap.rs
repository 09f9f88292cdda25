//! Trading one asset of the pool for the other along the constant-product
//! curve.
//!
//! The trader's payment goes into custody in full, and the pool pays out of
//! custody what the curve gives for it at the reserves it had before the
//! payment. A trade is decided from what both ledgers hold before either is
//! touched, so it is planned whole or not at all.

use crate::error::AmmError;
use crate::host::account_text;
use crate::ledger::{can_transfer, ActionView, Holdings, LedgerAction, LedgerView};
use crate::pool::{
    plan_view,
    planned_with,
    LedgerSlot,
    PoolReads,
    PoolView,
    Side,
    Step,
    StepView,
    AMM,
};
use crate::utils::{checked_swap_output, swap_output};
use near_sdk::AccountId;
use vstd::prelude::*;

verus! {

/// The ledgers of the sold and of the bought asset after the trader sold
/// `amount` to the pool, and what the trader got for it.
pub open spec fn trade(
    sold: LedgerView,
    bought: LedgerView,
    sold_decimals: u8,
    bought_decimals: u8,
    pool: Seq<char>,
    trader: Seq<char>,
    amount: u128,
) -> Result<(LedgerView, LedgerView, u128), AmmError> {
    if !sold.is_registered(pool) || !bought.is_registered(pool) {
        Err(AmmError::AccountNotRegistered)
    } else {
        match sold.transfer(trader, pool, amount) {
            Err(e) => Err(e),
            Ok(sold_after) => match swap_output(
                sold.balance_of(pool),
                bought.balance_of(pool),
                sold_decimals,
                bought_decimals,
                amount,
            ) {
                None => Err(AmmError::ArithmeticOverflow),
                Some(paid) => match bought.transfer(pool, trader, paid) {
                    Err(e) => Err(e),
                    Ok(bought_after) => Ok((sold_after, bought_after, paid)),
                },
            },
        }
    }
}

impl PoolView {
    /// Which asset is bought, if the two identifiers name the two assets of
    /// the pool, one each.
    pub open spec fn bought_side(self, buy: Seq<char>, sell: Seq<char>) -> Option<Side> {
        if buy == self.id_a && sell == self.id_b {
            Some(Side::A)
        } else if buy == self.id_b && sell == self.id_a {
            Some(Side::B)
        } else {
            None
        }
    }

    /// The pool after the trader sold `amount` of the asset `sell` for the
    /// asset `buy`, and how much of `buy` the trader got.
    pub open spec fn swap(
        self,
        pool: Seq<char>,
        trader: Seq<char>,
        buy: Seq<char>,
        sell: Seq<char>,
        amount: u128,
    ) -> Result<(PoolView, u128), AmmError> {
        if buy == sell {
            Err(AmmError::TokensEqual)
        } else {
            match self.bought_side(buy, sell) {
                None => Err(AmmError::TokenNotSupported),
                Some(bought) => match (self.metadata(bought.other()), self.metadata(bought)) {
                    (Some(sold_meta), Some(bought_meta)) => match trade(
                        self.ledger(bought.other()),
                        self.ledger(bought),
                        sold_meta.decimals,
                        bought_meta.decimals,
                        pool,
                        trader,
                        amount,
                    ) {
                        Err(e) => Err(e),
                        Ok((sold_after, bought_after, paid)) => Ok(
                            (
                                self.with_ledger(bought.other(), sold_after).with_ledger(
                                    bought,
                                    bought_after,
                                ),
                                paid,
                            ),
                        ),
                    },
                    _ => Err(AmmError::MetadataNotInitialized),
                },
            }
        }
    }

    /// The steps of a trade that pays `paid`: the payment into custody,
    /// then the payout from custody.
    pub open spec fn swap_steps(
        self,
        pool: Seq<char>,
        trader: Seq<char>,
        buy: Seq<char>,
        sell: Seq<char>,
        amount: u128,
        paid: u128,
    ) -> Seq<StepView> {
        let bought = self.bought_side(buy, sell)->Some_0;
        seq![
            StepView {
                slot: LedgerSlot::Asset(bought.other()),
                action: ActionView::Transfer { from: trader, to: pool, amount, memo: None },
            },
            StepView {
                slot: LedgerSlot::Asset(bought),
                action: ActionView::Transfer { from: pool, to: trader, amount: paid, memo: None },
            },
        ]
    }

    /// The steps of the trade, as far as there is one.
    pub open spec fn swap_plan(
        self,
        pool: Seq<char>,
        trader: Seq<char>,
        buy: Seq<char>,
        sell: Seq<char>,
        amount: u128,
    ) -> Seq<StepView> {
        match self.swap(pool, trader, buy, sell, amount) {
            Ok((_, paid)) => self.swap_steps(pool, trader, buy, sell, amount, paid),
            Err(_) => Seq::empty(),
        }
    }
}

/// What the trader gets for `amount` of the sold asset, given what the
/// ledgers of the sold and of the bought asset hold for the pool and for the
/// trader; `same_account` says whether the trader is the pool's own account.
pub fn can_trade(
    sold: Holdings,
    bought: Holdings,
    sold_decimals: u8,
    bought_decimals: u8,
    same_account: bool,
    amount: u128,
) -> (r: Result<u128, AmmError>)
    ensures
        forall|s: LedgerView, b: LedgerView, pool: Seq<char>, trader: Seq<char>|
            {
                &&& (trader == pool) == same_account
                &&& s.seen(pool, trader) == sold
                &&& b.seen(pool, trader) == bought
            } ==> match #[trigger] trade(
                s,
                b,
                sold_decimals,
                bought_decimals,
                pool,
                trader,
                amount,
            ) {
                Ok((_, _, paid)) => r == Ok::<u128, AmmError>(paid),
                Err(e) => r == Err::<u128, AmmError>(e),
            },
{
    // The reserves: what the pool holds of each asset before the trade.
    let (x, y) = match (sold.pool, bought.pool) {
        (Some(x), Some(y)) => (x, y),
        _ => {
            return Err(AmmError::AccountNotRegistered);
        },
    };
    match can_transfer(same_account, sold.account, sold.pool, sold.total_supply, amount) {
        Err(e) => {
            return Err(e);
        },
        Ok(()) => {},
    }
    let buy_amount = match checked_swap_output(x, y, sold_decimals, bought_decimals, amount) {
        Some(buy_amount) => buy_amount,
        None => {
            return Err(AmmError::ArithmeticOverflow);
        },
    };
    match can_transfer(same_account, bought.pool, bought.account, bought.total_supply, buy_amount) {
        Err(e) => Err(e),
        Ok(()) => Ok(buy_amount),
    }
}

impl AMM {
    /// Whether `r` is the plan for the trade in every pool that shows
    /// `seen`.
    pub open spec fn swap_planned(
        &self,
        seen: PoolReads,
        pool: Seq<char>,
        trader: Seq<char>,
        buy: Seq<char>,
        sell: Seq<char>,
        amount: u128,
        r: Result<(Vec<Step>, u128), AmmError>,
    ) -> bool {
        forall|s: PoolView| #[trigger]
            self.sees(s, seen, pool, trader) ==> planned_with(
                s.swap(pool, trader, buy, sell, amount),
                s.swap_plan(pool, trader, buy, sell, amount),
                r,
            )
    }

    /// Plans the sale of `sell_amount` of the asset `sell_token_name` for
    /// the trader, and returns with the plan how much of the asset
    /// `buy_token_name` the trader gets; `pool` is the pool's own account
    /// and `seen` what the ledgers hold for the two. Refused if the two
    /// assets are the same, if they are not the two assets of the pool, if a
    /// descriptor is missing, if the pool's account is not registered with
    /// both ledgers, if a reserve does not fit in 128 bits at the common
    /// scale, or if one of the two transfers would be refused; a trade that
    /// would pay nothing is refused as a transfer of nothing.
    pub fn swap_for(
        &self,
        seen: &PoolReads,
        pool: &AccountId,
        trader: &AccountId,
        buy_token_name: &AccountId,
        sell_token_name: &AccountId,
        sell_amount: u128,
    ) -> (r: Result<(Vec<Step>, u128), AmmError>)
        ensures
            self.swap_planned(
                *seen,
                account_text(*pool),
                account_text(*trader),
                account_text(*buy_token_name),
                account_text(*sell_token_name),
                sell_amount,
                r,
            ),
    {
        if *buy_token_name == *sell_token_name {
            return Err(AmmError::TokensEqual);
        }
        let bought = if *buy_token_name == self.account_id_token_a && *sell_token_name
            == self.account_id_token_b {
            Side::A
        } else if *buy_token_name == self.account_id_token_b && *sell_token_name
            == self.account_id_token_a {
            Side::B
        } else {
            return Err(AmmError::TokenNotSupported);
        };
        let (decimals_a, decimals_b) = match (self.token_a(), self.token_b()) {
            (Some(meta_a), Some(meta_b)) => (meta_a.decimals, meta_b.decimals),
            _ => {
                return Err(AmmError::MetadataNotInitialized);
            },
        };
        let same_account = *trader == *pool;
        let (sold, buy_amount) = match bought {
            Side::A => (
                Side::B,
                can_trade(
                    seen.asset_b,
                    seen.asset_a,
                    decimals_b,
                    decimals_a,
                    same_account,
                    sell_amount,
                ),
            ),
            Side::B => (
                Side::A,
                can_trade(
                    seen.asset_a,
                    seen.asset_b,
                    decimals_a,
                    decimals_b,
                    same_account,
                    sell_amount,
                ),
            ),
        };
        let buy_amount = match buy_amount {
            Ok(buy_amount) => buy_amount,
            Err(e) => {
                return Err(e);
            },
        };
        let mut steps: Vec<Step> = Vec::new();
        steps.push(
            Step {
                slot: LedgerSlot::Asset(sold),
                action: LedgerAction::Transfer {
                    from: trader.clone(),
                    to: pool.clone(),
                    amount: sell_amount,
                    memo: None,
                },
            },
        );
        steps.push(
            Step {
                slot: LedgerSlot::Asset(bought),
                action: LedgerAction::Transfer {
                    from: pool.clone(),
                    to: trader.clone(),
                    amount: buy_amount,
                    memo: None,
                },
            },
        );
        proof {
            assert forall|s: PoolView| #[trigger]
                self.sees(
                    s,
                    *seen,
                    account_text(*pool),
                    account_text(*trader),
                ) implies planned_with(
                s.swap(
                    account_text(*pool),
                    account_text(*trader),
                    account_text(*buy_token_name),
                    account_text(*sell_token_name),
                    sell_amount,
                ),
                s.swap_plan(
                    account_text(*pool),
                    account_text(*trader),
                    account_text(*buy_token_name),
                    account_text(*sell_token_name),
                    sell_amount,
                ),
                Ok::<(Vec<Step>, u128), AmmError>((steps, buy_amount)),
            ) by {
                assert(plan_view(steps@) =~= s.swap_steps(
                    account_text(*pool),
                    account_text(*trader),
                    account_text(*buy_token_name),
                    account_text(*sell_token_name),
                    sell_amount,
                    buy_amount,
                ));
            }
        }
        Ok((steps, buy_amount))
    }

    /// Plans the sale of `sell_amount` of the asset `sell_token_name` for
    /// the account that makes the call, and returns with the plan how much
    /// of the asset `buy_token_name` it gets, the pool's own account being
    /// the one that owns the running contract.
    pub fn swap(
        &self,
        buy_token_name: AccountId,
        sell_token_name: AccountId,
        sell_amount: u128,
    ) -> (r: Result<(Vec<Step>, u128), AmmError>)
        ensures
            exists|seen: PoolReads, pool: Seq<char>, trader: Seq<char>|
                seen.coherent(trader == pool) && #[trigger] self.swap_planned(
                    seen,
                    pool,
                    trader,
                    account_text(buy_token_name),
                    account_text(sell_token_name),
                    sell_amount,
                    r,
                ),
    {
        let pool_owner_id = near_sdk::env::current_account_id();
        let user_account_id = near_sdk::env::predecessor_account_id();
        let seen = self.read(&pool_owner_id, &user_account_id);
        self.swap_for(
            &seen,
            &pool_owner_id,
            &user_account_id,
            &buy_token_name,
            &sell_token_name,
            sell_amount,
        )
    }
}

} // verus!
