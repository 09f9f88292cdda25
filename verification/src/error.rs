//! The ways an operation of the pool can be refused.

use vstd::prelude::*;
use vstd::string::StringExecFns;

verus! {

/// Why an operation was refused. A refused operation changes nothing.
#[derive(Clone, Copy, Debug, PartialEq, Eq, Structural)]
pub enum AmmError {
    /// The contract state exists already.
    AlreadyInitialized,
    /// The asset has no metadata yet.
    NoMetadata,
    /// The asset has metadata already.
    MetadataAlreadySet,
    /// The other asset carries the same name, symbol and decimals.
    SameToken,
    /// One of the two assets has no metadata yet.
    MetadataNotInitialized,
    /// The asset to buy is the asset to sell.
    TokensEqual,
    /// The asset is neither of the two assets of the pool.
    TokenNotSupported,
    /// The account is not registered with the ledger.
    AccountNotRegistered,
    /// The account is registered with the ledger already.
    AccountAlreadyRegistered,
    /// Sender and receiver of a transfer are the same account.
    SameAccount,
    /// A transfer of nothing.
    ZeroAmount,
    /// The account holds less than it is asked to give.
    InsufficientBalance,
    /// The balance of the account would not fit in 128 bits.
    BalanceOverflow,
    /// The total supply of the ledger would leave the range of 128 bits.
    TotalSupplyOverflow,
    /// A scaled reserve or the product of the reserves does not fit in 128 bits.
    ArithmeticOverflow,
    /// The reserve to divide by is empty.
    EmptyReserve,
    /// The transfer made by the asset's own contract failed.
    TransferFailed,
}

impl AmmError {
    /// The text that describes the error.
    pub open spec fn text(self) -> Seq<char> {
        match self {
            AmmError::AlreadyInitialized => "Already initialized"@,
            AmmError::NoMetadata => "There is no metadata"@,
            AmmError::MetadataAlreadySet => "The token has metadata"@,
            AmmError::SameToken => "Same token is not acceptable"@,
            AmmError::MetadataNotInitialized => "Please init the metadata of tokens"@,
            AmmError::TokensEqual => "Tokens can't be equals"@,
            AmmError::TokenNotSupported => "Token not supported"@,
            AmmError::AccountNotRegistered => "The account is not registered"@,
            AmmError::AccountAlreadyRegistered => "The account is already registered"@,
            AmmError::SameAccount => "Sender and receiver should be different"@,
            AmmError::ZeroAmount => "The amount should be a positive number"@,
            AmmError::InsufficientBalance => "The account doesn't have enough balance"@,
            AmmError::BalanceOverflow => "Balance overflow"@,
            AmmError::TotalSupplyOverflow => "Total supply overflow"@,
            AmmError::ArithmeticOverflow => "Arithmetic overflow"@,
            AmmError::EmptyReserve => "The reserve is empty"@,
            AmmError::TransferFailed => "The transfer failed"@,
        }
    }

    /// The text that describes the error, as a string.
    pub fn message(&self) -> (r: String)
        ensures
            r@ == self.text(),
    {
        let text = match self {
            AmmError::AlreadyInitialized => "Already initialized",
            AmmError::NoMetadata => "There is no metadata",
            AmmError::MetadataAlreadySet => "The token has metadata",
            AmmError::SameToken => "Same token is not acceptable",
            AmmError::MetadataNotInitialized => "Please init the metadata of tokens",
            AmmError::TokensEqual => "Tokens can't be equals",
            AmmError::TokenNotSupported => "Token not supported",
            AmmError::AccountNotRegistered => "The account is not registered",
            AmmError::AccountAlreadyRegistered => "The account is already registered",
            AmmError::SameAccount => "Sender and receiver should be different",
            AmmError::ZeroAmount => "The amount should be a positive number",
            AmmError::InsufficientBalance => "The account doesn't have enough balance",
            AmmError::BalanceOverflow => "Balance overflow",
            AmmError::TotalSupplyOverflow => "Total supply overflow",
            AmmError::ArithmeticOverflow => "Arithmetic overflow",
            AmmError::EmptyReserve => "The reserve is empty",
            AmmError::TransferFailed => "The transfer failed",
        };
        String::from_str(text)
    }
}

} // verus!
