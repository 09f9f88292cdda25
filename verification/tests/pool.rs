use amm::error::AmmError;
use amm::ledger::{holdings, total_supply, LedgerAction};
use amm::metadata::TokenMetadata;
use amm::pool::{LedgerSlot, Side, Step, AMM};
use near_sdk::serde_json::Value;
use near_sdk::test_utils::accounts;

fn fresh_storage() {
    let _ = near_sdk::mock::with_mocked_blockchain(|b| b.take_storage());
}

fn meta_a() -> TokenMetadata {
    TokenMetadata {
        name: "Example NEAR fungible token".to_string(),
        symbol: "FTA".to_string(),
        decimals: 8,
    }
}

fn meta_b() -> TokenMetadata {
    TokenMetadata {
        name: "Example NEAR fungible token".to_string(),
        symbol: "FTB".to_string(),
        decimals: 8,
    }
}


/// Performs planned steps on the ledgers of the pool.
fn perform(amm: &mut AMM, steps: Vec<Step>) {
    for step in steps {
        let ledger = match step.slot {
            LedgerSlot::Shares => &mut amm.token_amm,
            LedgerSlot::Asset(Side::A) => &mut amm.token_a.0,
            LedgerSlot::Asset(Side::B) => &mut amm.token_b.0,
        };
        match step.action {
            LedgerAction::Register { account } => ledger.internal_register_account(&account),
            LedgerAction::Deposit { account, amount } => ledger.internal_deposit(&account, amount),
            LedgerAction::Withdraw { account, amount } => {
                ledger.internal_withdraw(&account, amount)
            }
            LedgerAction::Transfer { from, to, amount, memo } => {
                ledger.internal_transfer(&from, &to, amount, memo)
            }
        }
    }
}

fn new_pool() -> AMM {
    fresh_storage();
    match AMM::new(accounts(1), accounts(2), accounts(3)) {
        Ok((mut amm, steps)) => {
            perform(&mut amm, steps);
            amm
        }
        Err(e) => panic!("{}", e.message()),
    }
}

#[test]
fn test_init() {
    let rick_id = accounts(1);
    let token_a = accounts(2);
    let token_b = accounts(3);
    fresh_storage();
    let (mut amm, steps) = AMM::new(rick_id.clone(), token_a.clone(), token_b.clone()).unwrap();
    perform(&mut amm, steps);
    assert_eq!(amm.set_metadata_a(meta_a()), Ok(()));
    assert_eq!(amm.set_metadata_b(meta_b()), Ok(()));

    let mut expected = near_sdk::serde_json::Map::new();
    expected.insert(
        "name".to_string(),
        Value::from("Example NEAR fungible token".to_string()),
    );
    expected.insert("decimals".to_string(), Value::from(8));
    assert_eq!(amm.ft_metadata_a(), Ok(Value::Object(expected).to_string()));
}

#[test]
fn test_metadata_a() {
    let amm = new_pool();
    let refused = amm.ft_metadata_a();
    assert_eq!(refused, Err(AmmError::NoMetadata));
    assert_eq!(refused.unwrap_err().message(), "There is no metadata");
}

#[test]
fn test_metadata_b() {
    let amm = new_pool();
    let refused = amm.ft_metadata_b();
    assert_eq!(refused, Err(AmmError::NoMetadata));
    assert_eq!(refused.unwrap_err().message(), "There is no metadata");
}

#[test]
fn test_set_metadata_a() {
    let mut amm = new_pool();
    assert_eq!(amm.set_metadata_a(meta_a()), Ok(()));
    let refused = amm.set_metadata_a(meta_a());
    assert_eq!(refused, Err(AmmError::MetadataAlreadySet));
    assert_eq!(refused.unwrap_err().message(), "The token has metadata");
}

#[test]
fn test_set_metadata_b() {
    let mut amm = new_pool();
    assert_eq!(amm.set_metadata_b(meta_b()), Ok(()));
    let refused = amm.set_metadata_b(meta_b());
    assert_eq!(refused, Err(AmmError::MetadataAlreadySet));
    assert_eq!(refused.unwrap_err().message(), "The token has metadata");
}

#[test]
fn test_init_same_token_a_and_b() {
    let mut amm = new_pool();
    assert_eq!(amm.set_metadata_a(meta_a()), Ok(()));
    let refused = amm.set_metadata_b(meta_a());
    assert_eq!(refused, Err(AmmError::SameToken));
    assert_eq!(refused.unwrap_err().message(), "Same token is not acceptable");
    assert!(amm.token_b().is_none());
}

#[test]
fn test_init_same_token_b_and_a() {
    let mut amm = new_pool();
    assert_eq!(amm.set_metadata_b(meta_b()), Ok(()));
    let refused = amm.set_metadata_a(meta_b());
    assert_eq!(refused, Err(AmmError::SameToken));
    assert_eq!(refused.unwrap_err().message(), "Same token is not acceptable");
    assert!(amm.token_a().is_none());
}

#[test]
fn test_add_token_to_pool_zombie_token() {
    let token_zombie = accounts(4);
    let amount = 10_000_u128;
    let mut amm = new_pool();
    assert_eq!(amm.set_metadata_a(meta_a()), Ok(()));
    assert_eq!(amm.set_metadata_b(meta_b()), Ok(()));
    let refused = amm.add_token_to_pool(token_zombie, amount, None).map(|_| ());
    assert_eq!(refused, Err(AmmError::TokenNotSupported));
    assert_eq!(refused.unwrap_err().message(), "Token not supported");
}

#[test]
fn test_add_token_to_pool_not_init_tokens() {
    let token_rick = accounts(2);
    let amount = 10_000_u128;
    let amm = new_pool();
    let refused = amm.add_token_to_pool(token_rick, amount, None).map(|_| ());
    assert_eq!(refused, Err(AmmError::MetadataNotInitialized));
    assert_eq!(
        refused.unwrap_err().message(),
        "Please init the metadata of tokens"
    );
}

#[test]
fn test_swap_same_tokens() {
    let token_rick = accounts(2);
    let amount = 10_000_u128;
    let amm = new_pool();
    let refused = amm.swap(token_rick.clone(), token_rick, amount).map(|_| ());
    assert_eq!(refused, Err(AmmError::TokensEqual));
    assert_eq!(refused.unwrap_err().message(), "Tokens can't be equals");
}

#[test]
fn test_swap_not_supported() {
    let token_rick = accounts(2);
    let token_zombie = accounts(4);
    let amount = 10_000_u128;
    let mut amm = new_pool();
    assert_eq!(amm.set_metadata_a(meta_a()), Ok(()));
    assert_eq!(amm.set_metadata_b(meta_b()), Ok(()));
    let refused = amm.swap(token_rick, token_zombie, amount).map(|_| ());
    assert_eq!(refused, Err(AmmError::TokenNotSupported));
    assert_eq!(refused.unwrap_err().message(), "Token not supported");
}

#[test]
fn metadata_json_names_its_fields() {
    let mut amm = new_pool();
    assert_eq!(amm.set_metadata_a(meta_a()), Ok(()));
    assert_eq!(
        amm.set_metadata_b(TokenMetadata {
            name: "Quoted \"B\"".to_string(),
            symbol: "FTB".to_string(),
            decimals: 0,
        }),
        Ok(())
    );
    let a: Value = near_sdk::serde_json::from_str(&amm.ft_metadata_a().unwrap()).unwrap();
    assert_eq!(a["name"], Value::from("Example NEAR fungible token"));
    assert_eq!(a["decimals"], Value::from(8));
    assert_eq!(a.as_object().unwrap().len(), 2);
    let b: Value = near_sdk::serde_json::from_str(&amm.ft_metadata_b().unwrap()).unwrap();
    assert_eq!(b["name"], Value::from("Quoted \"B\""));
    assert_eq!(b["decimals"], Value::from(0));
}

#[test]
fn a_descriptor_is_kept_when_a_second_one_is_refused() {
    let mut amm = new_pool();
    assert_eq!(amm.set_metadata_a(meta_a()), Ok(()));
    let other = TokenMetadata { name: "Other".to_string(), symbol: "OTH".to_string(), decimals: 2 };
    assert_eq!(amm.set_metadata_a(other), Err(AmmError::MetadataAlreadySet));
    let kept = amm.token_a().unwrap();
    assert_eq!(kept.name, "Example NEAR fungible token");
    assert_eq!(kept.symbol, "FTA");
    assert_eq!(kept.decimals, 8);
    assert!(amm.token_b().is_none());
}

#[test]
fn descriptors_that_differ_in_one_field_are_both_accepted() {
    let mut amm = new_pool();
    assert_eq!(amm.set_metadata_a(meta_a()), Ok(()));
    let mut b = meta_a();
    b.decimals = 9;
    assert_eq!(amm.set_metadata_b(b), Ok(()));
    assert_eq!(amm.check_meta(), Ok(()));

    let mut amm = new_pool();
    assert_eq!(amm.check_meta(), Err(AmmError::MetadataNotInitialized));
    assert_eq!(amm.set_metadata_b(meta_a()), Ok(()));
    assert_eq!(amm.check_meta(), Err(AmmError::MetadataNotInitialized));
    let mut a = meta_a();
    a.name = "Another name".to_string();
    assert_eq!(amm.set_metadata_a(a), Ok(()));
    assert_eq!(amm.check_meta(), Ok(()));
}

#[test]
fn a_new_pool_plans_to_register_its_owner() {
    fresh_storage();
    let owner = accounts(1);
    let (mut amm, steps) = AMM::new(owner.clone(), accounts(2), accounts(3)).unwrap();
    assert_eq!(amm.account_id_token_a, accounts(2));
    assert_eq!(amm.account_id_token_b, accounts(3));
    assert!(amm.token_a().is_none());
    assert!(amm.token_b().is_none());
    assert_eq!(total_supply(&amm.token_a.0), 0);
    assert_eq!(total_supply(&amm.token_b.0), 0);
    assert_eq!(total_supply(&amm.token_amm), 0);
    let register = |slot| Step { slot, action: LedgerAction::Register { account: owner.clone() } };
    assert_eq!(
        steps,
        vec![
            register(LedgerSlot::Asset(Side::A)),
            register(LedgerSlot::Asset(Side::B)),
            register(LedgerSlot::Shares),
        ]
    );
    // Nothing is registered before the steps are performed.
    assert_eq!(holdings(&amm.token_a.0, &owner, &owner).account, None);
    perform(&mut amm, steps);
    for ledger in [&amm.token_a.0, &amm.token_b.0, &amm.token_amm] {
        let held = holdings(ledger, &owner, &accounts(5));
        assert_eq!(held.pool, Some(0));
        assert_eq!(held.account, None);
        assert_eq!(held.total_supply, 0);
    }
}

#[test]
fn the_three_ledgers_lie_under_their_own_prefixes() {
    let mut amm = new_pool();
    let rick = accounts(5);
    amm.token_a.0.internal_register_account(&rick);
    amm.token_a.0.internal_deposit(&rick, 7);
    // Neither the ledger of B nor that of the shares knows the account.
    let seen = amm.read(&accounts(1), &rick);
    assert_eq!(seen.asset_a.account, Some(7));
    assert_eq!(seen.asset_b.account, None);
    assert_eq!(seen.shares.account, None);
    assert_eq!(seen.asset_a.pool, Some(0));
    assert_eq!(seen.asset_a.total_supply, 7);
    assert_eq!(seen.asset_b.total_supply, 0);
    // The tables are where the prefixes `a`, `b` and `amm` say.
    let key = |prefix: &[u8], account: &str| {
        let mut key = prefix.to_vec();
        key.extend((account.len() as u32).to_le_bytes());
        key.extend(account.as_bytes());
        key
    };
    assert!(near_sdk::env::storage_has_key(&key(b"a", "fargo")));
    assert!(!near_sdk::env::storage_has_key(&key(b"b", "fargo")));
    assert!(near_sdk::env::storage_has_key(&key(b"a", "bob")));
    assert!(near_sdk::env::storage_has_key(&key(b"b", "bob")));
    assert!(near_sdk::env::storage_has_key(&key(b"amm", "bob")));
}

#[test]
fn a_second_pool_over_the_same_storage_is_refused() {
    let _first = new_pool();
    let second = AMM::new(accounts(1), accounts(2), accounts(3));
    assert_eq!(second.err(), Some(AmmError::AccountAlreadyRegistered));
}

#[test]
fn a_pool_is_made_from_what_was_read() {
    fresh_storage();
    let owner = accounts(1);
    let ledgers = || {
        (
            near_contract_standards::fungible_token::FungibleToken::new(b"x".to_vec()),
            near_contract_standards::fungible_token::FungibleToken::new(b"y".to_vec()),
            near_contract_standards::fungible_token::FungibleToken::new(b"z".to_vec()),
        )
    };
    let nothing = amm::ledger::Holdings { pool: None, account: None, total_supply: 0 };
    let unknown = amm::pool::PoolReads { shares: nothing, asset_a: nothing, asset_b: nothing };
    let known = amm::ledger::Holdings { pool: Some(0), account: Some(0), total_supply: 0 };
    let (s, a, b) = ledgers();
    let made = AMM::from_ledgers(false, s, a, b, &unknown, &owner, accounts(2), accounts(3));
    assert_eq!(made.ok().map(|(_, steps)| steps.len()), Some(3));
    let (s, a, b) = ledgers();
    let made = AMM::from_ledgers(true, s, a, b, &unknown, &owner, accounts(2), accounts(3));
    assert_eq!(made.err(), Some(AmmError::AlreadyInitialized));
    for seen in [
        amm::pool::PoolReads { shares: known, ..unknown },
        amm::pool::PoolReads { asset_a: known, ..unknown },
        amm::pool::PoolReads { asset_b: known, ..unknown },
    ] {
        let (s, a, b) = ledgers();
        let made = AMM::from_ledgers(false, s, a, b, &seen, &owner, accounts(2), accounts(3));
        assert_eq!(made.err(), Some(AmmError::AccountAlreadyRegistered));
        // A state that exists is reported first.
        let (s, a, b) = ledgers();
        let made = AMM::from_ledgers(true, s, a, b, &seen, &owner, accounts(2), accounts(3));
        assert_eq!(made.err(), Some(AmmError::AlreadyInitialized));
    }
}

#[test]
fn a_pool_is_not_made_where_a_state_exists() {
    fresh_storage();
    near_sdk::env::state_write(&7u8);
    let refused = AMM::new(accounts(1), accounts(2), accounts(3));
    assert_eq!(refused.err(), Some(AmmError::AlreadyInitialized));
    assert_eq!(AmmError::AlreadyInitialized.message(), "Already initialized");
}

#[test]
fn the_ledger_is_found_by_the_identifier() {
    let amm = new_pool();
    let pool = accounts(0);
    assert_eq!(amm.side_of(&accounts(2)), Some(amm::pool::Side::A));
    assert_eq!(amm.side_of(&accounts(3)), Some(amm::pool::Side::B));
    assert_eq!(amm.side_of(&accounts(4)), None);
    assert_eq!(amm.slot_of(&pool, &pool), Some(amm::pool::LedgerSlot::Shares));
    assert_eq!(
        amm.slot_of(&pool, &accounts(3)),
        Some(amm::pool::LedgerSlot::Asset(amm::pool::Side::B))
    );
    assert_eq!(amm.slot_of(&pool, &accounts(4)), None);
    assert!(amm.get_token_by_name(&accounts(2)).is_ok());
    assert_eq!(
        amm.get_token_by_name(&accounts(4)).err(),
        Some(AmmError::TokenNotSupported)
    );
}

#[test]
fn every_error_has_its_message() {
    let all = [
        (AmmError::AlreadyInitialized, "Already initialized"),
        (AmmError::NoMetadata, "There is no metadata"),
        (AmmError::MetadataAlreadySet, "The token has metadata"),
        (AmmError::SameToken, "Same token is not acceptable"),
        (AmmError::MetadataNotInitialized, "Please init the metadata of tokens"),
        (AmmError::TokensEqual, "Tokens can't be equals"),
        (AmmError::TokenNotSupported, "Token not supported"),
        (AmmError::AccountNotRegistered, "The account is not registered"),
        (AmmError::AccountAlreadyRegistered, "The account is already registered"),
        (AmmError::SameAccount, "Sender and receiver should be different"),
        (AmmError::ZeroAmount, "The amount should be a positive number"),
        (AmmError::InsufficientBalance, "The account doesn't have enough balance"),
        (AmmError::BalanceOverflow, "Balance overflow"),
        (AmmError::TotalSupplyOverflow, "Total supply overflow"),
        (AmmError::ArithmeticOverflow, "Arithmetic overflow"),
        (AmmError::EmptyReserve, "The reserve is empty"),
        (AmmError::TransferFailed, "The transfer failed"),
    ];
    for (error, text) in all {
        assert_eq!(error.message(), text);
    }
}
