//! Withdrawals: giving an asset back to the account that the pool owes it to.
//!
//! The asset is moved by its own contract, not by the pool, so a withdrawal
//! takes two calls and is in one of four states. It is *requested* by
//! `withdraw_tokens`, which checks the asset and says which transfer is to be
//! made; no balance changes. While the asset's contract makes the transfer
//! the withdrawal *awaits its result*, and the pool serves other calls. The
//! second call, `withdraw_tokens_callback`, is told how the transfer ended:
//! after a transfer that was made the withdrawal is *finalized* and the amount
//! is to be taken from what the pool owes the account, at the balances read
//! at that moment; after one that failed the withdrawal has *failed*, which
//! is reported, and nothing is to be done to the pool.
//!
//! The pool keeps no record of a withdrawal that awaits its result. The
//! second call is given the asset and the amount again, and takes the
//! account from the host: it is the one that signed the transaction.

use crate::error::AmmError;
use crate::host::account_text;
use crate::ledger::{can_withdraw, ActionView, LedgerAction};
use crate::pool::{planned, plan_view, LedgerSlot, PoolReads, PoolView, Step, StepView, AMM};
use near_sdk::AccountId;
use vstd::prelude::*;

verus! {

/// How the transfer by the asset's own contract ended.
#[derive(Clone, Copy, Debug, PartialEq, Eq, Structural)]
pub enum TransferOutcome {
    /// The transfer has not ended. The pool is never told so: the second call
    /// of a withdrawal is made when the transfer has ended.
    NotReady,
    /// The transfer failed: the asset's contract moved nothing.
    Failed,
    /// The asset's contract moved the amount to the account.
    Successful,
}

/// A withdrawal that the pool accepted: the asset's contract `token` is to
/// transfer `amount` to `account`.
#[derive(Debug)]
pub struct Withdrawal {
    pub token: AccountId,
    pub account: AccountId,
    pub amount: u128,
}

/// A withdrawal as plain values.
pub struct WithdrawalView {
    pub token: Seq<char>,
    pub account: Seq<char>,
    pub amount: u128,
}

impl View for Withdrawal {
    type V = WithdrawalView;

    open spec fn view(&self) -> WithdrawalView {
        WithdrawalView {
            token: account_text(self.token),
            account: account_text(self.account),
            amount: self.amount,
        }
    }
}

impl PoolView {
    /// Whether a withdrawal of the asset `token` is accepted: it is if the
    /// asset is one of the pool's.
    pub open spec fn request_withdrawal(self, token: Seq<char>) -> Result<(), AmmError> {
        match self.side_of(token) {
            Some(_) => Ok(()),
            None => Err(AmmError::TokenNotSupported),
        }
    }

    /// The pool after the transfer of a withdrawal ended. Where the transfer
    /// was made, `amount` is taken from what the pool owes the account;
    /// where it failed, the withdrawal fails.
    pub open spec fn finish_withdrawal(
        self,
        account: Seq<char>,
        token: Seq<char>,
        amount: u128,
        outcome: TransferOutcome,
    ) -> Result<PoolView, AmmError>
        recommends
            outcome != TransferOutcome::NotReady,
    {
        if outcome != TransferOutcome::Successful {
            Err(AmmError::TransferFailed)
        } else {
            match self.side_of(token) {
                None => Err(AmmError::TokenNotSupported),
                Some(side) => match self.ledger(side).withdraw(account, amount) {
                    Err(e) => Err(e),
                    Ok(asset) => Ok(self.with_ledger(side, asset)),
                },
            }
        }
    }

    /// The one step of a withdrawal whose transfer was made.
    pub open spec fn finish_withdrawal_steps(
        self,
        account: Seq<char>,
        token: Seq<char>,
        amount: u128,
    ) -> Seq<StepView> {
        seq![
            StepView {
                slot: LedgerSlot::Asset(self.side_of(token)->Some_0),
                action: ActionView::Withdraw { account, amount },
            },
        ]
    }
}

impl AMM {
    /// Whether `r` is the plan for ending the withdrawal in every pool that
    /// shows `seen`.
    pub open spec fn withdrawal_planned(
        &self,
        seen: PoolReads,
        pool: Seq<char>,
        account: Seq<char>,
        token: Seq<char>,
        amount: u128,
        outcome: TransferOutcome,
        r: Result<Vec<Step>, AmmError>,
    ) -> bool {
        forall|s: PoolView| #[trigger]
            self.sees(s, seen, pool, account) ==> planned(
                s.finish_withdrawal(account, token, amount, outcome),
                s.finish_withdrawal_steps(account, token, amount),
                r,
            )
    }

    /// Accepts the withdrawal of `amount` of the asset `token_name` by the
    /// account, and says which transfer is to be made. Refused if the asset
    /// is not one of the pool's.
    pub fn request_withdrawal(&self, account: AccountId, token_name: AccountId, amount: u128) -> (r:
        Result<Withdrawal, AmmError>)
        ensures
            forall|s: PoolView| #[trigger]
                self.describes(s) ==> match s.request_withdrawal(account_text(token_name)) {
                    Ok(()) => r is Ok && r->Ok_0@ == (WithdrawalView {
                        token: account_text(token_name),
                        account: account_text(account),
                        amount,
                    }),
                    Err(e) => r is Err && r->Err_0 == e,
                },
    {
        match self.side_of(&token_name) {
            Some(_) => Ok(Withdrawal { token: token_name, account, amount }),
            None => Err(AmmError::TokenNotSupported),
        }
    }

    /// Plans the end of the withdrawal of `amount` of the asset `token_name`
    /// by the account; `seen` is what the ledgers hold for the account.
    /// Where the transfer was made, the amount is to be taken from the
    /// account's balance with the pool; refused if the asset is not one of
    /// the pool's, or if the account is not registered or is owed less.
    /// Where the transfer failed, the withdrawal is refused.
    pub fn finish_withdrawal(
        &self,
        seen: &PoolReads,
        pool: &AccountId,
        account: &AccountId,
        token_name: &AccountId,
        amount: u128,
        outcome: TransferOutcome,
    ) -> (r: Result<Vec<Step>, AmmError>)
        requires
            outcome != TransferOutcome::NotReady,
        ensures
            self.withdrawal_planned(
                *seen,
                account_text(*pool),
                account_text(*account),
                account_text(*token_name),
                amount,
                outcome,
                r,
            ),
            outcome == TransferOutcome::Failed ==> r is Err && r->Err_0
                == AmmError::TransferFailed,
    {
        match outcome {
            TransferOutcome::Successful => {},
            _ => {
                return Err(AmmError::TransferFailed);
            },
        }
        let side = match self.side_of(token_name) {
            Some(side) => side,
            None => {
                return Err(AmmError::TokenNotSupported);
            },
        };
        let held = seen.asset(side);
        match can_withdraw(held.account, held.total_supply, amount) {
            Err(e) => {
                return Err(e);
            },
            Ok(()) => {},
        }
        let mut steps: Vec<Step> = Vec::new();
        steps.push(
            Step {
                slot: LedgerSlot::Asset(side),
                action: LedgerAction::Withdraw { account: account.clone(), amount },
            },
        );
        proof {
            assert forall|s: PoolView| #[trigger]
                self.sees(s, *seen, account_text(*pool), account_text(*account)) implies planned(
                s.finish_withdrawal(
                    account_text(*account),
                    account_text(*token_name),
                    amount,
                    outcome,
                ),
                s.finish_withdrawal_steps(
                    account_text(*account),
                    account_text(*token_name),
                    amount,
                ),
                Ok::<Vec<Step>, AmmError>(steps),
            ) by {
                assert(plan_view(steps@) =~= s.finish_withdrawal_steps(
                    account_text(*account),
                    account_text(*token_name),
                    amount,
                ));
            }
        }
        Ok(steps)
    }

    /// Accepts the withdrawal of `amount` of the asset `token_name` by the
    /// account that makes the call.
    pub fn withdraw_tokens(&self, token_name: AccountId, amount: u128) -> (r: Result<
        Withdrawal,
        AmmError,
    >)
        ensures
            forall|s: PoolView| #[trigger]
                self.describes(s) ==> match s.request_withdrawal(account_text(token_name)) {
                    Ok(()) => {
                        &&& r is Ok
                        &&& r->Ok_0@.token == account_text(token_name)
                        &&& r->Ok_0@.amount == amount
                    },
                    Err(e) => r is Err && r->Err_0 == e,
                },
    {
        let account_id = near_sdk::env::predecessor_account_id();
        self.request_withdrawal(account_id, token_name, amount)
    }

    /// Plans the end of the withdrawal of `amount` of the asset `token_name`
    /// by the account that signed the transaction behind the call. A failed
    /// transfer is reported whatever that account is.
    pub fn withdraw_tokens_callback(
        &self,
        token_name: AccountId,
        amount: u128,
        outcome: TransferOutcome,
    ) -> (r: Result<Vec<Step>, AmmError>)
        requires
            outcome != TransferOutcome::NotReady,
        ensures
            exists|seen: PoolReads, pool: Seq<char>, account: Seq<char>|
                seen.coherent(account == pool) && #[trigger] self.withdrawal_planned(
                    seen,
                    pool,
                    account,
                    account_text(token_name),
                    amount,
                    outcome,
                    r,
                ),
            outcome == TransferOutcome::Failed ==> r is Err && r->Err_0
                == AmmError::TransferFailed,
    {
        let account_id = near_sdk::env::signer_account_id();
        let pool = near_sdk::env::current_account_id();
        let seen = self.read(&pool, &account_id);
        self.finish_withdrawal(&seen, &pool, &account_id, &token_name, amount, outcome)
    }
}

} // verus!
