//! A summary of the pool: which pair it trades, at which scale, and how the
//! two reserves compare.

use crate::error::AmmError;
use crate::host::account_text;
use crate::pool::{PoolReads, PoolView, AMM};
use crate::utils::{
    checked_add_decimals,
    checked_calc_ratio,
    common_decimals,
    ratio_of,
    scale_up,
};
use near_sdk::AccountId;
use vstd::prelude::*;
use vstd::string::StringExecFns;

verus! {

/// The pair of symbols, the common decimals of the two assets, and the ratio
/// of the reserve of A to the reserve of B with two decimal places.
#[derive(Debug)]
pub struct PoolInfo {
    pub ticker: String,
    pub decimals: u8,
    pub ratio: u128,
}

/// A summary as plain values.
pub struct PoolInfoView {
    pub ticker: Seq<char>,
    pub decimals: u8,
    pub ratio: u128,
}

impl View for PoolInfo {
    type V = PoolInfoView;

    open spec fn view(&self) -> PoolInfoView {
        PoolInfoView { ticker: self.ticker@, decimals: self.decimals, ratio: self.ratio }
    }
}

/// The JSON object with a text under the first key, a number under the second
/// and a 128-bit amount under the third, as `serde_json` writes it.
pub uninterp spec fn json_text_number_amount(
    text_key: Seq<char>,
    text: Seq<char>,
    number_key: Seq<char>,
    number: u8,
    amount_key: Seq<char>,
    amount: u128,
) -> Seq<char>;

/// Has `serde_json` write the object of the three values: they are entered
/// into a `Map` in this order, the amount as `near_sdk::json_types::U128`
/// serializes, and the text is what `Value::to_string` gives for the object.
#[verifier::external_body]
pub(crate) fn write_text_number_amount(
    text_key: &str,
    text: &str,
    number_key: &str,
    number: u8,
    amount_key: &str,
    amount: u128,
) -> (r: String)
    ensures
        r@ == json_text_number_amount(text_key@, text@, number_key@, number, amount_key@, amount),
{
    let amount = near_sdk::serde_json::to_value(near_sdk::json_types::U128(amount));
    let mut fields = near_sdk::serde_json::Map::new();
    fields.insert(text_key.to_string(), near_sdk::serde_json::Value::from(text));
    fields.insert(number_key.to_string(), near_sdk::serde_json::Value::from(number));
    fields.insert(amount_key.to_string(), amount.unwrap_or_default());
    near_sdk::serde_json::Value::Object(fields).to_string()
}

impl PoolInfoView {
    /// The summary as a JSON object.
    pub open spec fn json(self) -> Seq<char> {
        json_text_number_amount(
            "ticker"@,
            self.ticker,
            "decimals"@,
            self.decimals,
            "ratio"@,
            self.ratio,
        )
    }
}

impl PoolInfo {
    /// The summary as a JSON object.
    pub fn to_json(&self) -> (r: String)
        ensures
            r@ == self@.json(),
    {
        write_text_number_amount(
            "ticker",
            self.ticker.as_str(),
            "decimals",
            self.decimals,
            "ratio",
            self.ratio,
        )
    }
}

impl PoolView {
    /// The summary of the pool whose own account is `pool`: the reserves are
    /// what that account holds of each asset, brought to the common scale.
    pub open spec fn info(self, pool: Seq<char>) -> Result<PoolInfoView, AmmError> {
        match (self.meta_a, self.meta_b) {
            (Some(meta_a), Some(meta_b)) => {
                let common = common_decimals(meta_a.decimals, meta_b.decimals);
                let a = scale_up(
                    self.ledger_a.balance_of(pool) as nat,
                    (common - meta_a.decimals) as nat,
                );
                let b = scale_up(
                    self.ledger_b.balance_of(pool) as nat,
                    (common - meta_b.decimals) as nat,
                );
                if !self.ledger_a.is_registered(pool) || !self.ledger_b.is_registered(pool) {
                    Err(AmmError::AccountNotRegistered)
                } else if a > u128::MAX || b > u128::MAX || scale_up(a, 3) > u128::MAX {
                    Err(AmmError::ArithmeticOverflow)
                } else if b == 0 {
                    Err(AmmError::EmptyReserve)
                } else {
                    Ok(
                        PoolInfoView {
                            ticker: meta_a.symbol + "/"@ + meta_b.symbol,
                            decimals: common,
                            ratio: ratio_of(a, b, 2) as u128,
                        },
                    )
                }
            },
            _ => Err(AmmError::MetadataNotInitialized),
        }
    }
}

impl AMM {
    /// Whether `r` is the summary of every pool that shows `seen`.
    pub open spec fn info_answered(
        &self,
        seen: PoolReads,
        pool: Seq<char>,
        r: Result<PoolInfo, AmmError>,
    ) -> bool {
        forall|s: PoolView, account: Seq<char>| #[trigger]
            self.sees(s, seen, pool, account) ==> match s.info(pool) {
                Ok(info) => r is Ok && r->Ok_0@ == info,
                Err(e) => r is Err && r->Err_0 == e,
            }
    }

    /// Whether `r` is the summary, as JSON text, of every pool that shows
    /// `seen`.
    pub open spec fn info_written(
        &self,
        seen: PoolReads,
        pool: Seq<char>,
        r: Result<String, AmmError>,
    ) -> bool {
        forall|s: PoolView, account: Seq<char>| #[trigger]
            self.sees(s, seen, pool, account) ==> match s.info(pool) {
                Ok(info) => r is Ok && r->Ok_0@ == info.json(),
                Err(e) => r is Err && r->Err_0 == e,
            }
    }

    /// The summary of the pool, `pool` being the pool's own account and
    /// `seen` what the ledgers hold for it. Refused if a descriptor is
    /// missing, if the account is not registered with both asset ledgers, if
    /// a reserve does not fit in 128 bits at the common scale with three
    /// more decimal places, or if the reserve of B is empty.
    pub fn pool_info(&self, seen: &PoolReads, pool: &AccountId) -> (r: Result<PoolInfo, AmmError>)
        ensures
            self.info_answered(*seen, account_text(*pool), r),
    {
        let (meta_a, meta_b) = match (self.token_a(), self.token_b()) {
            (Some(meta_a), Some(meta_b)) => (meta_a, meta_b),
            _ => {
                return Err(AmmError::MetadataNotInitialized);
            },
        };
        let (a, b) = match (seen.asset_a.pool, seen.asset_b.pool) {
            (Some(a), Some(b)) => (a, b),
            _ => {
                return Err(AmmError::AccountNotRegistered);
            },
        };
        let max_decimals: u8 = if meta_a.decimals >= meta_b.decimals {
            meta_a.decimals
        } else {
            meta_b.decimals
        };
        let a = match checked_add_decimals(a, max_decimals - meta_a.decimals) {
            Some(a) => a,
            None => {
                return Err(AmmError::ArithmeticOverflow);
            },
        };
        let b = match checked_add_decimals(b, max_decimals - meta_b.decimals) {
            Some(b) => b,
            None => {
                return Err(AmmError::ArithmeticOverflow);
            },
        };
        if checked_add_decimals(a, 3).is_none() {
            return Err(AmmError::ArithmeticOverflow);
        }
        let ratio = match checked_calc_ratio(a, b, 2) {
            Some(ratio) => ratio,
            None => {
                return Err(AmmError::EmptyReserve);
            },
        };
        let ticker = meta_a.symbol.clone().concat("/").concat(meta_b.symbol.as_str());
        Ok(PoolInfo { ticker, decimals: max_decimals, ratio })
    }

    /// The summary of the pool as a JSON object, the pool's own account
    /// being the one that owns the running contract.
    pub fn contract_info(&self) -> (r: Result<String, AmmError>)
        ensures
            exists|seen: PoolReads, pool: Seq<char>|
                seen.coherent(true) && #[trigger] self.info_written(seen, pool, r),
    {
        let pool_owner_id = near_sdk::env::current_account_id();
        let seen = self.read(&pool_owner_id, &pool_owner_id);
        let r = match self.pool_info(&seen, &pool_owner_id) {
            Ok(info) => Ok(info.to_json()),
            Err(e) => Err(e),
        };
        assert(self.info_written(seen, account_text(pool_owner_id), r));
        r
    }
}

} // verus!
