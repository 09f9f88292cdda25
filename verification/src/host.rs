//! Account identifiers and what the host tells a call about itself.
//!
//! Nothing in this file is proved: it states what `near_sdk` provides. The
//! host ends a call that runs out of gas, and a view call that asks for its
//! predecessor or signer; neither is an outcome of the functions below.

use near_sdk::AccountId;
use vstd::prelude::*;

verus! {

/// `near_sdk::AccountId`, a string that the host accepts as the name of an
/// account. Its text is all that the pool reads of it.
#[verifier::external_type_specification]
#[verifier::external_body]
pub struct ExAccountId(AccountId);

/// The text of an account identifier: what `AccountId::as_str` returns.
pub uninterp spec fn account_text(id: AccountId) -> Seq<char>;

/// `AccountId == AccountId` compares the two texts; the impl is derived on a
/// struct whose one field is the text.
pub assume_specification[ <AccountId as PartialEq>::eq ](a: &AccountId, b: &AccountId) -> (r: bool)
    ensures
        r == (account_text(*a) == account_text(*b)),
;

/// `AccountId::clone` returns an identifier with the same text.
pub assume_specification[ <AccountId as Clone>::clone ](id: &AccountId) -> (r: AccountId)
    ensures
        account_text(r) == account_text(*id),
;

/// `env::current_account_id`: the account that owns the running contract.
/// Which account that is depends on the call, so nothing is stated of it.
pub assume_specification[ near_sdk::env::current_account_id ]() -> (r: AccountId)
;

/// `env::predecessor_account_id`: the account that made the running call.
/// Which account that is depends on the call, so nothing is stated of it.
pub assume_specification[ near_sdk::env::predecessor_account_id ]() -> (r: AccountId)
;

/// `env::signer_account_id`: the account that signed the transaction behind
/// the running call. Nothing is stated of it.
pub assume_specification[ near_sdk::env::signer_account_id ]() -> (r: AccountId)
;

/// `env::state_exists`: whether the host's storage holds a contract state.
/// That depends on the storage, so nothing is stated of it.
pub assume_specification[ near_sdk::env::state_exists ]() -> (r: bool)
;

} // verus!
