//! The pool: two asset ledgers, the ledger of pool shares, the descriptors of
//! the two assets and their identifiers.
//!
//! `PoolView` is the pool with what its ledgers hold, as plain values; it
//! says what every operation makes of a pool and when it is refused. The
//! ledgers themselves hold their tables in the host's storage, so a method of
//! `AMM` works in three parts. It asks the host who is calling and reads what
//! the ledgers hold for the accounts concerned (`AMM::read`). A method that
//! takes the accounts and what was read as arguments then decides: it
//! returns the error of the model, or the steps that the model's operation
//! consists of. Its contract holds for every pool that shows what was read.
//! The steps are performed on the ledgers by whoever runs the pool.

use crate::error::AmmError;
use crate::host::account_text;
use crate::ledger::{
    can_register,
    holdings,
    ledger_prefix,
    ledger_supply,
    new_token,
    ActionView,
    Holdings,
    LedgerAction,
    LedgerView,
};
use crate::metadata::{MetadataView, TokenMetadata};
use near_contract_standards::fungible_token::FungibleToken;
use near_sdk::AccountId;
use vstd::prelude::*;

verus! {

/// A pool of two assets.
pub struct AMM {
    /// The ledger of pool shares.
    pub token_amm: FungibleToken,
    /// The ledger of asset A, and its descriptor once it is set.
    pub token_a: (FungibleToken, Option<TokenMetadata>),
    /// The ledger of asset B, and its descriptor once it is set.
    pub token_b: (FungibleToken, Option<TokenMetadata>),
    /// The identifier of asset A.
    pub account_id_token_a: AccountId,
    /// The identifier of asset B.
    pub account_id_token_b: AccountId,
}

/// One of the two assets of a pool.
#[derive(Clone, Copy, Debug, PartialEq, Eq, Structural)]
pub enum Side {
    A,
    B,
}

/// One of the three ledgers of a pool.
#[derive(Clone, Copy, Debug, PartialEq, Eq, Structural)]
pub enum LedgerSlot {
    /// The ledger of pool shares.
    Shares,
    /// The ledger of one of the two assets.
    Asset(Side),
}

/// What was read of the three ledgers for an operation of the pool.
#[derive(Clone, Copy, Debug, PartialEq, Eq, Structural)]
pub struct PoolReads {
    pub shares: Holdings,
    pub asset_a: Holdings,
    pub asset_b: Holdings,
}

/// One action on one of the three ledgers.
#[derive(Debug, PartialEq, Eq)]
pub struct Step {
    pub slot: LedgerSlot,
    pub action: LedgerAction,
}

/// A step as plain values.
pub struct StepView {
    pub slot: LedgerSlot,
    pub action: ActionView,
}

impl View for Step {
    type V = StepView;

    open spec fn view(&self) -> StepView {
        StepView { slot: self.slot, action: self.action@ }
    }
}

/// Steps as plain values.
pub open spec fn plan_view(steps: Seq<Step>) -> Seq<StepView> {
    steps.map_values(|step: Step| step@)
}

/// A pool with what its ledgers hold, as plain values.
pub struct PoolView {
    pub shares: LedgerView,
    pub ledger_a: LedgerView,
    pub ledger_b: LedgerView,
    pub meta_a: Option<MetadataView>,
    pub meta_b: Option<MetadataView>,
    pub id_a: Seq<char>,
    pub id_b: Seq<char>,
}

/// The descriptors and identifiers of a pool, as plain values.
pub struct PoolConfig {
    pub meta_a: Option<MetadataView>,
    pub meta_b: Option<MetadataView>,
    pub id_a: Seq<char>,
    pub id_b: Seq<char>,
}

/// A descriptor, if there is one, as plain values.
pub open spec fn metadata_view(metadata: Option<TokenMetadata>) -> Option<MetadataView> {
    match metadata {
        Some(m) => Some(m@),
        None => None,
    }
}

impl View for AMM {
    type V = PoolConfig;

    open spec fn view(&self) -> PoolConfig {
        PoolConfig {
            meta_a: metadata_view(self.token_a.1),
            meta_b: metadata_view(self.token_b.1),
            id_a: account_text(self.account_id_token_a),
            id_b: account_text(self.account_id_token_b),
        }
    }
}

/// Whether `r` is what the model of an operation asks for: the steps of the
/// operation where the model accepts it, the model's error where it does
/// not.
pub open spec fn planned(
    model: Result<PoolView, AmmError>,
    steps: Seq<StepView>,
    r: Result<Vec<Step>, AmmError>,
) -> bool {
    match model {
        Ok(_) => r is Ok && plan_view(r->Ok_0@) == steps,
        Err(e) => r is Err && r->Err_0 == e,
    }
}

/// As `planned`, for an operation that also returns an amount.
pub open spec fn planned_with(
    model: Result<(PoolView, u128), AmmError>,
    steps: Seq<StepView>,
    r: Result<(Vec<Step>, u128), AmmError>,
) -> bool {
    match model {
        Ok((_, amount)) => r is Ok && plan_view(r->Ok_0.0@) == steps && r->Ok_0.1 == amount,
        Err(e) => r is Err && r->Err_0 == e,
    }
}

impl Side {
    pub open spec fn other(self) -> Side {
        match self {
            Side::A => Side::B,
            Side::B => Side::A,
        }
    }
}

impl PoolView {
    /// The pool that is made of three ledgers by registering the owner with
    /// each of them. Refused if one of them knows the owner already.
    pub open spec fn open(
        shares: LedgerView,
        ledger_a: LedgerView,
        ledger_b: LedgerView,
        owner: Seq<char>,
        id_a: Seq<char>,
        id_b: Seq<char>,
    ) -> Result<PoolView, AmmError> {
        match (ledger_a.register(owner), ledger_b.register(owner), shares.register(owner)) {
            (Ok(a), Ok(b), Ok(s)) => Ok(
                PoolView {
                    shares: s,
                    ledger_a: a,
                    ledger_b: b,
                    meta_a: None,
                    meta_b: None,
                    id_a,
                    id_b,
                },
            ),
            _ => Err(AmmError::AccountAlreadyRegistered),
        }
    }

    /// Which of the two assets the identifier names. Where both assets have
    /// the same identifier it names A.
    pub open spec fn side_of(self, token: Seq<char>) -> Option<Side> {
        if token == self.id_a {
            Some(Side::A)
        } else if token == self.id_b {
            Some(Side::B)
        } else {
            None
        }
    }

    /// Which ledger the identifier names: the pool's own account names the
    /// ledger of shares.
    pub open spec fn slot_of(self, pool: Seq<char>, token: Seq<char>) -> Option<LedgerSlot> {
        if token == pool {
            Some(LedgerSlot::Shares)
        } else {
            match self.side_of(token) {
                Some(side) => Some(LedgerSlot::Asset(side)),
                None => None,
            }
        }
    }

    pub open spec fn ledger(self, side: Side) -> LedgerView {
        match side {
            Side::A => self.ledger_a,
            Side::B => self.ledger_b,
        }
    }

    pub open spec fn slot(self, slot: LedgerSlot) -> LedgerView {
        match slot {
            LedgerSlot::Shares => self.shares,
            LedgerSlot::Asset(side) => self.ledger(side),
        }
    }

    pub open spec fn metadata(self, side: Side) -> Option<MetadataView> {
        match side {
            Side::A => self.meta_a,
            Side::B => self.meta_b,
        }
    }

    pub open spec fn with_ledger(self, side: Side, ledger: LedgerView) -> PoolView {
        match side {
            Side::A => PoolView { ledger_a: ledger, ..self },
            Side::B => PoolView { ledger_b: ledger, ..self },
        }
    }

    pub open spec fn with_metadata(self, side: Side, metadata: MetadataView) -> PoolView {
        match side {
            Side::A => PoolView { meta_a: Some(metadata), ..self },
            Side::B => PoolView { meta_b: Some(metadata), ..self },
        }
    }

    /// Whether each of the three ledgers accounts for all it issued.
    pub open spec fn conserved(self) -> bool {
        &&& self.shares.conserved()
        &&& self.ledger_a.conserved()
        &&& self.ledger_b.conserved()
    }

    /// Whether both assets have their descriptor.
    pub open spec fn has_metadata(self) -> bool {
        self.meta_a is Some && self.meta_b is Some
    }

    /// The guard of every operation that trades or moves liquidity.
    pub open spec fn check_meta(self) -> Result<(), AmmError> {
        if self.has_metadata() {
            Ok(())
        } else {
            Err(AmmError::MetadataNotInitialized)
        }
    }

    /// The pool with the descriptor of one asset set. A descriptor is set
    /// once, and the two assets never carry equal descriptors.
    pub open spec fn set_metadata(self, side: Side, metadata: MetadataView) -> Result<
        PoolView,
        AmmError,
    > {
        if self.metadata(side) is Some {
            Err(AmmError::MetadataAlreadySet)
        } else if self.metadata(side.other()) == Some(metadata) {
            Err(AmmError::SameToken)
        } else {
            Ok(self.with_metadata(side, metadata))
        }
    }

    /// The name and decimals of one asset as a JSON object.
    pub open spec fn metadata_json(self, side: Side) -> Result<Seq<char>, AmmError> {
        match self.metadata(side) {
            Some(m) => Ok(m.json()),
            None => Err(AmmError::NoMetadata),
        }
    }

    pub open spec fn with_shares(self, shares: LedgerView) -> PoolView {
        PoolView { shares, ..self }
    }

    /// The balance of the account with the ledger that the identifier names.
    /// Refused if it names none.
    pub open spec fn balance_of(
        self,
        pool: Seq<char>,
        token: Seq<char>,
        account: Seq<char>,
    ) -> Result<u128, AmmError> {
        match self.slot_of(pool, token) {
            Some(slot) => Ok(self.slot(slot).balance_of(account)),
            None => Err(AmmError::TokenNotSupported),
        }
    }

    /// The descriptors and identifiers of the pool: what it is apart from
    /// its ledgers.
    pub open spec fn config(self) -> PoolConfig {
        PoolConfig { meta_a: self.meta_a, meta_b: self.meta_b, id_a: self.id_a, id_b: self.id_b }
    }

    /// What a reader of the three ledgers sees who asks for the pool's own
    /// account and for one other account.
    pub open spec fn seen(self, pool: Seq<char>, account: Seq<char>) -> PoolReads {
        PoolReads {
            shares: self.shares.seen(pool, account),
            asset_a: self.ledger_a.seen(pool, account),
            asset_b: self.ledger_b.seen(pool, account),
        }
    }

    pub open spec fn with_slot(self, slot: LedgerSlot, ledger: LedgerView) -> PoolView {
        match slot {
            LedgerSlot::Shares => self.with_shares(ledger),
            LedgerSlot::Asset(side) => self.with_ledger(side, ledger),
        }
    }

    /// The pool after one step was performed on its ledgers.
    pub open spec fn step(self, step: StepView) -> Result<PoolView, AmmError> {
        match self.slot(step.slot).apply(step.action) {
            Ok(ledger) => Ok(self.with_slot(step.slot, ledger)),
            Err(e) => Err(e),
        }
    }

    /// The pool after the steps were performed on its ledgers, one after
    /// the other.
    pub open spec fn perform(self, steps: Seq<StepView>) -> Result<PoolView, AmmError>
        decreases steps.len(),
    {
        if steps.len() == 0 {
            Ok(self)
        } else {
            match self.step(steps[0]) {
                Ok(next) => next.perform(steps.drop_first()),
                Err(e) => Err(e),
            }
        }
    }

    /// The steps that make a pool of three ledgers.
    pub open spec fn open_steps(owner: Seq<char>) -> Seq<StepView> {
        seq![
            StepView {
                slot: LedgerSlot::Asset(Side::A),
                action: ActionView::Register { account: owner },
            },
            StepView {
                slot: LedgerSlot::Asset(Side::B),
                action: ActionView::Register { account: owner },
            },
            StepView { slot: LedgerSlot::Shares, action: ActionView::Register { account: owner } },
        ]
    }
}

impl PoolReads {
    /// Whether this can have been read of three ledgers, for an account
    /// that is the pool's own (`same_account`) or another.
    pub open spec fn coherent(self, same_account: bool) -> bool {
        &&& self.shares.coherent(same_account)
        &&& self.asset_a.coherent(same_account)
        &&& self.asset_b.coherent(same_account)
    }
}

impl PoolView {
    /// A pool with the given descriptors and identifiers whose ledgers show
    /// `seen` to a reader who asks for the two accounts.
    pub open spec fn showing(
        config: PoolConfig,
        seen: PoolReads,
        pool: Seq<char>,
        account: Seq<char>,
    ) -> PoolView {
        PoolView {
            shares: LedgerView::showing(seen.shares, pool, account),
            ledger_a: LedgerView::showing(seen.asset_a, pool, account),
            ledger_b: LedgerView::showing(seen.asset_b, pool, account),
            meta_a: config.meta_a,
            meta_b: config.meta_b,
            id_a: config.id_a,
            id_b: config.id_b,
        }
    }
}

impl AMM {
    /// Whether `s` is this pool with some content of its ledgers.
    pub open spec fn describes(&self, s: PoolView) -> bool {
        s.config() == self@
    }

    /// Whether `s` is this pool with ledgers that show `seen` to a reader
    /// who asks for the accounts `pool` and `account`.
    pub open spec fn sees(
        &self,
        s: PoolView,
        seen: PoolReads,
        pool: Seq<char>,
        account: Seq<char>,
    ) -> bool {
        &&& self.describes(s)
        &&& s.seen(pool, account) == seen
    }

    /// Whether the three ledgers lie under three different storage prefixes.
    pub open spec fn apart(
        token_amm: FungibleToken,
        ledger_a: FungibleToken,
        ledger_b: FungibleToken,
    ) -> bool {
        &&& ledger_prefix(ledger_a) != ledger_prefix(ledger_b)
        &&& ledger_prefix(ledger_a) != ledger_prefix(token_amm)
        &&& ledger_prefix(ledger_b) != ledger_prefix(token_amm)
    }

    /// Reads what the three ledgers hold for the pool's own account and for
    /// one other account.
    pub fn read(&self, pool: &AccountId, account: &AccountId) -> (r: PoolReads)
        ensures
            r.shares.total_supply == ledger_supply(self.token_amm),
            r.asset_a.total_supply == ledger_supply(self.token_a.0),
            r.asset_b.total_supply == ledger_supply(self.token_b.0),
            r.coherent(account_text(*account) == account_text(*pool)),
    {
        PoolReads {
            shares: holdings(&self.token_amm, pool, account),
            asset_a: holdings(&self.token_a.0, pool, account),
            asset_b: holdings(&self.token_b.0, pool, account),
        }
    }

    /// A pool over three ledgers that the caller made, and the steps that
    /// register the owner with each of them. `already_initialized` says
    /// whether the host holds a contract state, and `seen` what the three
    /// ledgers hold for the owner. Refused if there is a state already, or
    /// if one of the ledgers knows the owner already.
    pub fn from_ledgers(
        already_initialized: bool,
        token_amm: FungibleToken,
        ledger_a: FungibleToken,
        ledger_b: FungibleToken,
        seen: &PoolReads,
        owner_id: &AccountId,
        token_a_id: AccountId,
        token_b_id: AccountId,
    ) -> (r: Result<(AMM, Vec<Step>), AmmError>)
        requires
            AMM::apart(token_amm, ledger_a, ledger_b),
        ensures
            already_initialized ==> r is Err && r->Err_0 == AmmError::AlreadyInitialized,
            !already_initialized ==> forall|shares: LedgerView, a: LedgerView, b: LedgerView|
                {
                    &&& shares.entry(account_text(*owner_id)) == seen.shares.account
                    &&& a.entry(account_text(*owner_id)) == seen.asset_a.account
                    &&& b.entry(account_text(*owner_id)) == seen.asset_b.account
                } ==> match #[trigger] PoolView::open(
                    shares,
                    a,
                    b,
                    account_text(*owner_id),
                    account_text(token_a_id),
                    account_text(token_b_id),
                ) {
                    Ok(pool) => {
                        &&& r is Ok
                        &&& r->Ok_0.0.describes(pool)
                        &&& plan_view(r->Ok_0.1@) == PoolView::open_steps(account_text(*owner_id))
                    },
                    Err(e) => r is Err && r->Err_0 == e,
                },
            r is Ok ==> {
                &&& r->Ok_0.0.token_amm == token_amm
                &&& r->Ok_0.0.token_a.0 == ledger_a
                &&& r->Ok_0.0.token_b.0 == ledger_b
            },
    {
        if already_initialized {
            return Err(AmmError::AlreadyInitialized);
        }
        if can_register(seen.asset_a.account).is_err() {
            return Err(AmmError::AccountAlreadyRegistered);
        }
        if can_register(seen.asset_b.account).is_err() {
            return Err(AmmError::AccountAlreadyRegistered);
        }
        if can_register(seen.shares.account).is_err() {
            return Err(AmmError::AccountAlreadyRegistered);
        }
        let mut steps: Vec<Step> = Vec::new();
        steps.push(
            Step {
                slot: LedgerSlot::Asset(Side::A),
                action: LedgerAction::Register { account: owner_id.clone() },
            },
        );
        steps.push(
            Step {
                slot: LedgerSlot::Asset(Side::B),
                action: LedgerAction::Register { account: owner_id.clone() },
            },
        );
        steps.push(
            Step {
                slot: LedgerSlot::Shares,
                action: LedgerAction::Register { account: owner_id.clone() },
            },
        );
        assert(plan_view(steps@) =~= PoolView::open_steps(account_text(*owner_id)));
        Ok(
            (
                AMM {
                    token_amm,
                    token_a: (ledger_a, None),
                    token_b: (ledger_b, None),
                    account_id_token_a: token_a_id,
                    account_id_token_b: token_b_id,
                },
                steps,
            ),
        )
    }

    /// A pool for the two assets, with ledgers under the storage prefixes
    /// `a`, `b` and `amm` (in ASCII), and the steps that register the owner
    /// with each of them. Refused if the host holds a contract state
    /// already, or if the storage under one of the prefixes knows the owner
    /// already.
    pub fn new(owner_id: AccountId, token_a_id: AccountId, token_b_id: AccountId) -> (r: Result<
        (AMM, Vec<Step>),
        AmmError,
    >)
        ensures
            match r {
                Ok((amm, steps)) => {
                    &&& amm@ == (PoolConfig {
                        meta_a: None,
                        meta_b: None,
                        id_a: account_text(token_a_id),
                        id_b: account_text(token_b_id),
                    })
                    &&& ledger_prefix(amm.token_a.0) == seq![97u8]
                    &&& ledger_prefix(amm.token_b.0) == seq![98u8]
                    &&& ledger_prefix(amm.token_amm) == seq![97u8, 109u8, 109u8]
                    &&& ledger_supply(amm.token_a.0) == 0
                    &&& ledger_supply(amm.token_b.0) == 0
                    &&& ledger_supply(amm.token_amm) == 0
                    &&& plan_view(steps@) == PoolView::open_steps(account_text(owner_id))
                },
                Err(e) => e == AmmError::AlreadyInitialized || e
                    == AmmError::AccountAlreadyRegistered,
            },
    {
        let already_initialized = near_sdk::env::state_exists();
        let ledger_a = new_token(vec![97u8]);
        let ledger_b = new_token(vec![98u8]);
        let token_amm = new_token(vec![97u8, 109u8, 109u8]);
        let seen = PoolReads {
            shares: holdings(&token_amm, &owner_id, &owner_id),
            asset_a: holdings(&ledger_a, &owner_id, &owner_id),
            asset_b: holdings(&ledger_b, &owner_id, &owner_id),
        };
        proof {
            assert(seq![97u8][0] != seq![98u8][0]);
            assert(seq![97u8].len() != seq![97u8, 109u8, 109u8].len());
            assert(seq![98u8].len() != seq![97u8, 109u8, 109u8].len());
        }
        let ghost owner = account_text(owner_id);
        let ghost id_a = account_text(token_a_id);
        let ghost id_b = account_text(token_b_id);
        let r = AMM::from_ledgers(
            already_initialized,
            token_amm,
            ledger_a,
            ledger_b,
            &seen,
            &owner_id,
            token_a_id,
            token_b_id,
        );
        proof {
            // Some ledgers that show what was read.
            let shares = LedgerView::showing(seen.shares, owner, owner);
            let a = LedgerView::showing(seen.asset_a, owner, owner);
            let b = LedgerView::showing(seen.asset_b, owner, owner);
            assert(shares.entry(owner) == seen.shares.account);
            assert(a.entry(owner) == seen.asset_a.account);
            assert(b.entry(owner) == seen.asset_b.account);
            let opened = PoolView::open(shares, a, b, owner, id_a, id_b);
            if r is Ok {
                assert(opened is Ok);
                assert(r->Ok_0.0.describes(opened->Ok_0));
            }
        }
        r
    }

    /// The descriptor of asset A, if it is set.
    pub fn token_a(&self) -> (r: Option<&TokenMetadata>)
        ensures
            match r {
                Some(meta) => self.token_a.1 == Some(*meta),
                None => self.token_a.1 is None,
            },
    {
        self.token_a.1.as_ref()
    }

    /// The descriptor of asset B, if it is set.
    pub fn token_b(&self) -> (r: Option<&TokenMetadata>)
        ensures
            match r {
                Some(meta) => self.token_b.1 == Some(*meta),
                None => self.token_b.1 is None,
            },
    {
        self.token_b.1.as_ref()
    }

    /// Whether both assets have their descriptor.
    pub fn check_meta(&self) -> (r: Result<(), AmmError>)
        ensures
            forall|s: PoolView| #[trigger] self.describes(s) ==> r == s.check_meta(),
    {
        if self.token_a().is_none() || self.token_b().is_none() {
            Err(AmmError::MetadataNotInitialized)
        } else {
            Ok(())
        }
    }

    /// Sets the descriptor of asset A. Refused if A has one already, or if B
    /// has one with the same name, symbol and decimals. No ledger is
    /// touched.
    pub fn set_metadata_a(&mut self, meta: TokenMetadata) -> (r: Result<(), AmmError>)
        ensures
            forall|s: PoolView| #[trigger]
                old(self).describes(s) ==> match s.set_metadata(Side::A, meta@) {
                    Ok(after) => r is Ok && final(self).describes(after),
                    Err(e) => r == Err::<(), AmmError>(e),
                },
            r is Err ==> *final(self) == *old(self),
            final(self).token_amm == old(self).token_amm,
            final(self).token_a.0 == old(self).token_a.0,
            final(self).token_b.0 == old(self).token_b.0,
    {
        if self.token_a().is_some() {
            return Err(AmmError::MetadataAlreadySet);
        }
        match self.token_b() {
            Some(other) => {
                if meta.same_token(other) {
                    return Err(AmmError::SameToken);
                }
            },
            None => {},
        }
        self.token_a.1 = Some(meta);
        Ok(())
    }

    /// Sets the descriptor of asset B. Refused if B has one already, or if A
    /// has one with the same name, symbol and decimals. No ledger is
    /// touched.
    pub fn set_metadata_b(&mut self, meta: TokenMetadata) -> (r: Result<(), AmmError>)
        ensures
            forall|s: PoolView| #[trigger]
                old(self).describes(s) ==> match s.set_metadata(Side::B, meta@) {
                    Ok(after) => r is Ok && final(self).describes(after),
                    Err(e) => r == Err::<(), AmmError>(e),
                },
            r is Err ==> *final(self) == *old(self),
            final(self).token_amm == old(self).token_amm,
            final(self).token_a.0 == old(self).token_a.0,
            final(self).token_b.0 == old(self).token_b.0,
    {
        if self.token_b().is_some() {
            return Err(AmmError::MetadataAlreadySet);
        }
        match self.token_a() {
            Some(other) => {
                if meta.same_token(other) {
                    return Err(AmmError::SameToken);
                }
            },
            None => {},
        }
        self.token_b.1 = Some(meta);
        Ok(())
    }

    /// The name and decimals of asset A as a JSON object.
    pub fn ft_metadata_a(&self) -> (r: Result<String, AmmError>)
        ensures
            forall|s: PoolView| #[trigger]
                self.describes(s) ==> match s.metadata_json(Side::A) {
                    Ok(text) => r is Ok && r->Ok_0@ == text,
                    Err(e) => r is Err && r->Err_0 == e,
                },
    {
        match self.token_a() {
            Some(meta) => Ok(meta.to_json()),
            None => Err(AmmError::NoMetadata),
        }
    }

    /// The name and decimals of asset B as a JSON object.
    pub fn ft_metadata_b(&self) -> (r: Result<String, AmmError>)
        ensures
            forall|s: PoolView| #[trigger]
                self.describes(s) ==> match s.metadata_json(Side::B) {
                    Ok(text) => r is Ok && r->Ok_0@ == text,
                    Err(e) => r is Err && r->Err_0 == e,
                },
    {
        match self.token_b() {
            Some(meta) => Ok(meta.to_json()),
            None => Err(AmmError::NoMetadata),
        }
    }

    /// Which of the two assets the identifier names.
    pub fn side_of(&self, token: &AccountId) -> (r: Option<Side>)
        ensures
            forall|s: PoolView| #[trigger]
                self.describes(s) ==> r == s.side_of(account_text(*token)),
    {
        if self.account_id_token_a == *token {
            Some(Side::A)
        } else if self.account_id_token_b == *token {
            Some(Side::B)
        } else {
            None
        }
    }

    /// Which of the three ledgers the identifier names, `pool` being the
    /// pool's own account.
    pub fn slot_of(&self, pool: &AccountId, token: &AccountId) -> (r: Option<LedgerSlot>)
        ensures
            forall|s: PoolView| #[trigger]
                self.describes(s) ==> r == s.slot_of(account_text(*pool), account_text(*token)),
    {
        if *token == *pool {
            Some(LedgerSlot::Shares)
        } else {
            match self.side_of(token) {
                Some(side) => Some(LedgerSlot::Asset(side)),
                None => None,
            }
        }
    }

    /// The ledger and the descriptor of the asset that the identifier names.
    /// Refused if it names neither asset.
    pub fn get_token_by_name(&self, token: &AccountId) -> (r: Result<
        &(FungibleToken, Option<TokenMetadata>),
        AmmError,
    >)
        ensures
            forall|s: PoolView| #[trigger]
                self.describes(s) ==> match s.side_of(account_text(*token)) {
                    Some(Side::A) => r is Ok && *r->Ok_0 == self.token_a,
                    Some(Side::B) => r is Ok && *r->Ok_0 == self.token_b,
                    None => r is Err && r->Err_0 == AmmError::TokenNotSupported,
                },
    {
        match self.side_of(token) {
            Some(Side::A) => Ok(&self.token_a),
            Some(Side::B) => Ok(&self.token_b),
            None => Err(AmmError::TokenNotSupported),
        }
    }

    /// The ledger and the descriptor of the asset that the identifier names,
    /// to be changed in place. Refused if it names neither asset.
    pub fn get_token_by_name_as_ref(&mut self, token: &AccountId) -> (r: Result<
        &mut (FungibleToken, Option<TokenMetadata>),
        AmmError,
    >)
        ensures
            forall|s: PoolView| #[trigger]
                old(self).describes(s) ==> match s.side_of(account_text(*token)) {
                    Some(Side::A) => r is Ok && *r->Ok_0 == old(self).token_a && *final(self)
                        == (AMM { token_a: *final(r->Ok_0), ..*old(self) }),
                    Some(Side::B) => r is Ok && *r->Ok_0 == old(self).token_b && *final(self)
                        == (AMM { token_b: *final(r->Ok_0), ..*old(self) }),
                    None => r is Err && r->Err_0 == AmmError::TokenNotSupported && *final(self)
                        == *old(self),
                },
    {
        match self.side_of(token) {
            Some(Side::A) => Ok(&mut self.token_a),
            Some(Side::B) => Ok(&mut self.token_b),
            None => Err(AmmError::TokenNotSupported),
        }
    }

    /// The balance of the account with the ledger that `token_name` names,
    /// `pool` being the pool's own account and `seen` what the ledgers hold
    /// for the two: zero if the account is not registered there. Refused if
    /// `token_name` names no ledger.
    pub fn balance_of(
        &self,
        seen: &PoolReads,
        pool: &AccountId,
        token_name: &AccountId,
        account_id: &AccountId,
    ) -> (r: Result<u128, AmmError>)
        ensures
            forall|s: PoolView| #[trigger]
                self.sees(s, *seen, account_text(*pool), account_text(*account_id)) ==> r
                    == s.balance_of(
                    account_text(*pool),
                    account_text(*token_name),
                    account_text(*account_id),
                ),
    {
        let held = match self.slot_of(pool, token_name) {
            Some(LedgerSlot::Shares) => seen.shares.account,
            Some(LedgerSlot::Asset(Side::A)) => seen.asset_a.account,
            Some(LedgerSlot::Asset(Side::B)) => seen.asset_b.account,
            None => {
                return Err(AmmError::TokenNotSupported);
            },
        };
        match held {
            Some(balance) => Ok(balance),
            None => Ok(0),
        }
    }

    /// Whether `r` answers the question for a balance for some account that
    /// owns the running contract and something that the ledgers hold.
    pub open spec fn balance_answered(
        &self,
        seen: PoolReads,
        pool: Seq<char>,
        token: Seq<char>,
        account: Seq<char>,
        r: Result<u128, AmmError>,
    ) -> bool {
        forall|s: PoolView| #[trigger]
            self.sees(s, seen, pool, account) ==> r == s.balance_of(pool, token, account)
    }

    /// The balance of the account with the ledger that `token_name` names;
    /// the account that owns the running contract names the ledger of shares.
    pub fn ft_balance_of(&self, token_name: AccountId, account_id: AccountId) -> (r: Result<
        u128,
        AmmError,
    >)
        ensures
            exists|seen: PoolReads, pool: Seq<char>|
                seen.coherent(account_text(account_id) == pool) && #[trigger] self.balance_answered(
                    seen,
                    pool,
                    account_text(token_name),
                    account_text(account_id),
                    r,
                ),
    {
        let pool = near_sdk::env::current_account_id();
        let seen = self.read(&pool, &account_id);
        let r = self.balance_of(&seen, &pool, &token_name, &account_id);
        assert(self.balance_answered(
            seen,
            account_text(pool),
            account_text(token_name),
            account_text(account_id),
            r,
        ));
        r
    }
}

} // verus!
