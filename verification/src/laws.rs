//! What holds of the pool whatever its state: laws that relate the models of
//! its operations, proved from their definitions.

use crate::error::AmmError;
use crate::ledger::{sum_of_balances, LedgerView};
use crate::metadata::MetadataView;
use crate::pool::{PoolConfig, PoolReads, PoolView, Side, StepView};
use crate::utils::{
    common_decimals,
    curve_output,
    lemma_curve_output_below_reserve,
    lemma_curve_output_bounded,
    lemma_curve_output_monotonic,
    lemma_pow10_positive,
    lemma_scale_down_bounded,
    pow10,
    scale_up,
    swap_output,
};
use crate::withdrawal::TransferOutcome;
use vstd::arithmetic::div_mod::{lemma_div_is_ordered, lemma_div_multiples_vanish};
use vstd::prelude::*;

verus! {

/// The sum of a table is the balance of any one of its accounts and the sum
/// of the others.
pub proof fn lemma_sum_splits(balances: Map<Seq<char>, u128>, account: Seq<char>)
    requires
        balances.dom().finite(),
        balances.contains_key(account),
    ensures
        sum_of_balances(balances) == balances[account] + sum_of_balances(balances.remove(account)),
    decreases balances.dom().len(),
{
    let chosen = balances.dom().choose();
    if chosen != account {
        lemma_sum_splits(balances.remove(chosen), account);
        lemma_sum_splits(balances.remove(account), chosen);
        assert(balances.remove(chosen).remove(account) =~= balances.remove(account).remove(
            chosen,
        ));
    }
}

/// Setting the balance of one account changes the sum by the difference.
pub proof fn lemma_sum_after_insert(
    balances: Map<Seq<char>, u128>,
    account: Seq<char>,
    balance: u128,
)
    requires
        balances.dom().finite(),
    ensures
        balances.insert(account, balance).dom().finite(),
        balances.contains_key(account) ==> sum_of_balances(balances.insert(account, balance))
            == sum_of_balances(balances) - balances[account] + balance,
        !balances.contains_key(account) ==> sum_of_balances(balances.insert(account, balance))
            == sum_of_balances(balances) + balance,
{
    let after = balances.insert(account, balance);
    lemma_sum_splits(after, account);
    assert(after.remove(account) =~= balances.remove(account));
    if balances.contains_key(account) {
        lemma_sum_splits(balances, account);
    } else {
        assert(balances.remove(account) =~= balances);
    }
}

/// In a ledger that accounts for all it issued, no account holds more than
/// the total supply.
pub proof fn lemma_balance_within_supply(ledger: LedgerView, account: Seq<char>)
    requires
        ledger.conserved(),
    ensures
        ledger.balance_of(account) <= ledger.total_supply,
{
    if ledger.is_registered(account) {
        lemma_sum_splits(ledger.balances, account);
    }
}

/// A ledger that accounts for all it issued still does after an account is
/// registered, after a deposit, after a withdrawal and after a transfer.
pub proof fn lemma_ledger_stays_conserved(
    ledger: LedgerView,
    account: Seq<char>,
    other: Seq<char>,
    amount: u128,
)
    requires
        ledger.conserved(),
    ensures
        ledger.register(account) is Ok ==> ledger.register(account)->Ok_0.conserved(),
        ledger.deposit(account, amount) is Ok ==> ledger.deposit(account, amount)->Ok_0.conserved(),
        ledger.withdraw(account, amount) is Ok ==> ledger.withdraw(
            account,
            amount,
        )->Ok_0.conserved(),
        ledger.transfer(account, other, amount) is Ok ==> ledger.transfer(
            account,
            other,
            amount,
        )->Ok_0.conserved(),
{
    lemma_sum_after_insert(ledger.balances, account, 0);
    if ledger.is_registered(account) {
        lemma_sum_after_insert(
            ledger.balances,
            account,
            (ledger.balances[account] + amount) as u128,
        );
        lemma_sum_after_insert(
            ledger.balances,
            account,
            (ledger.balances[account] - amount) as u128,
        );
    }
    if ledger.transfer(account, other, amount) is Ok {
        let taken = ledger.withdraw(account, amount)->Ok_0;
        lemma_sum_after_insert(taken.balances, other, (taken.balances[other] + amount) as u128);
    }
}

/// In a ledger that accounts for all it issued, a withdrawal or a transfer
/// is never refused for want of supply: the total supply covers whatever an
/// account holds.
pub proof fn lemma_supply_covers_balances(
    ledger: LedgerView,
    account: Seq<char>,
    other: Seq<char>,
    amount: u128,
)
    requires
        ledger.conserved(),
    ensures
        ledger.withdraw(account, amount) != Err::<LedgerView, AmmError>(
            AmmError::TotalSupplyOverflow,
        ),
        ledger.transfer(account, other, amount) != Err::<LedgerView, AmmError>(
            AmmError::TotalSupplyOverflow,
        ),
{
    lemma_balance_within_supply(ledger, account);
    if ledger.withdraw(account, amount) is Ok {
        lemma_ledger_stays_conserved(ledger, account, other, amount);
        lemma_balance_within_supply(ledger.withdraw(account, amount)->Ok_0, other);
    }
}

/// Whatever was read of the three ledgers, some pool shows it: the contract
/// of a decision, which holds for every pool that shows what was read, is
/// never met for want of such a pool.
pub proof fn lemma_reads_are_shown(
    config: PoolConfig,
    seen: PoolReads,
    pool: Seq<char>,
    account: Seq<char>,
)
    requires
        seen.coherent(account == pool),
    ensures
        PoolView::showing(config, seen, pool, account).config() == config,
        PoolView::showing(config, seen, pool, account).seen(pool, account) == seen,
{
}

/// Performing one step, or two steps one after the other.
proof fn lemma_perform_steps(s: PoolView, first: StepView, second: StepView)
    ensures
        s.perform(seq![first]) == s.step(first),
        s.perform(seq![first, second]) == (match s.step(first) {
            Ok(next) => next.step(second),
            Err(e) => Err(e),
        }),
{
    reveal_with_fuel(PoolView::perform, 3);
    assert(seq![first].drop_first() =~= Seq::<StepView>::empty());
    assert(seq![first, second].drop_first() =~= seq![second]);
    assert(seq![second].drop_first() =~= Seq::<StepView>::empty());
}

/// The steps that the pool plans for an operation are the operation: where
/// the model accepts it, performing the steps on the ledgers makes of the
/// pool what the model says.
pub proof fn lemma_steps_make_the_operation(
    s: PoolView,
    pool: Seq<char>,
    account: Seq<char>,
    token: Seq<char>,
    other: Seq<char>,
    amount: u128,
    memo: Option<Seq<char>>,
)
    ensures
        s.add_liquidity(pool, account, token, amount) is Ok ==> s.perform(
            s.add_liquidity_steps(pool, account, token, amount, memo),
        ) == s.add_liquidity(pool, account, token, amount),
        s.remove_liquidity(pool, account, token, amount) is Ok ==> s.perform(
            s.remove_liquidity_steps(pool, account, token, amount, memo),
        ) == s.remove_liquidity(pool, account, token, amount),
        s.swap(pool, account, token, other, amount) is Ok ==> s.perform(
            s.swap_plan(pool, account, token, other, amount),
        ) == Ok::<PoolView, AmmError>(s.swap(pool, account, token, other, amount)->Ok_0.0),
        s.receive_deposit(token, account, amount) is Ok ==> s.perform(
            s.receive_deposit_steps(token, account, amount),
        ) == Ok::<PoolView, AmmError>(s.receive_deposit(token, account, amount)->Ok_0.0),
        s.finish_withdrawal(account, token, amount, TransferOutcome::Successful) is Ok
            ==> s.perform(s.finish_withdrawal_steps(account, token, amount))
            == s.finish_withdrawal(account, token, amount, TransferOutcome::Successful),
{
    if s.add_liquidity(pool, account, token, amount) is Ok {
        let steps = s.add_liquidity_steps(pool, account, token, amount, memo);
        lemma_perform_steps(s, steps[0], steps[1]);
        assert(steps =~= seq![steps[0], steps[1]]);
    }
    if s.remove_liquidity(pool, account, token, amount) is Ok {
        let steps = s.remove_liquidity_steps(pool, account, token, amount, memo);
        lemma_perform_steps(s, steps[0], steps[1]);
        assert(steps =~= seq![steps[0], steps[1]]);
    }
    if s.swap(pool, account, token, other, amount) is Ok {
        let steps = s.swap_plan(pool, account, token, other, amount);
        lemma_perform_steps(s, steps[0], steps[1]);
        assert(steps =~= seq![steps[0], steps[1]]);
    }
    if s.receive_deposit(token, account, amount) is Ok {
        let steps = s.receive_deposit_steps(token, account, amount);
        lemma_perform_steps(s, steps[0], steps[0]);
        assert(steps =~= seq![steps[0]]);
    }
    if s.finish_withdrawal(account, token, amount, TransferOutcome::Successful) is Ok {
        let steps = s.finish_withdrawal_steps(account, token, amount);
        lemma_perform_steps(s, steps[0], steps[0]);
        assert(steps =~= seq![steps[0]]);
    }
}

/// The steps that the pool plans when it is made register the owner with its
/// three ledgers: where the model accepts the ledgers, performing the steps
/// on them makes the pool that the model says.
pub proof fn lemma_steps_make_the_pool(
    shares: LedgerView,
    ledger_a: LedgerView,
    ledger_b: LedgerView,
    owner: Seq<char>,
    id_a: Seq<char>,
    id_b: Seq<char>,
)
    requires
        PoolView::open(shares, ledger_a, ledger_b, owner, id_a, id_b) is Ok,
    ensures
        (PoolView { shares, ledger_a, ledger_b, meta_a: None, meta_b: None, id_a, id_b }).perform(
            PoolView::open_steps(owner),
        ) == PoolView::open(shares, ledger_a, ledger_b, owner, id_a, id_b),
{
    let s = PoolView { shares, ledger_a, ledger_b, meta_a: None, meta_b: None, id_a, id_b };
    let steps = PoolView::open_steps(owner);
    reveal_with_fuel(PoolView::perform, 4);
    assert(steps.drop_first() =~= seq![steps[1], steps[2]]);
    assert(steps.drop_first().drop_first() =~= seq![steps[2]]);
    assert(steps.drop_first().drop_first().drop_first() =~= Seq::<StepView>::empty());
}

/// An account cannot withdraw more than it holds.
pub proof fn lemma_withdraw_needs_funds(ledger: LedgerView, account: Seq<char>, amount: u128)
    requires
        amount > ledger.balance_of(account),
    ensures
        ledger.withdraw(account, amount) is Err,
{
}

/// An account cannot send more than it holds.
pub proof fn lemma_transfer_needs_funds(
    ledger: LedgerView,
    from: Seq<char>,
    to: Seq<char>,
    amount: u128,
)
    requires
        amount > ledger.balance_of(from),
    ensures
        ledger.transfer(from, to, amount) is Err,
{
}

/// A deposit gives exactly the amount to the account and adds it to the
/// total supply, and leaves every other account alone.
pub proof fn lemma_deposit_gives_amount(
    ledger: LedgerView,
    account: Seq<char>,
    amount: u128,
    other: Seq<char>,
)
    requires
        ledger.deposit(account, amount) is Ok,
        other != account,
    ensures
        ledger.deposit(account, amount)->Ok_0.balance_of(account) == ledger.balance_of(account)
            + amount,
        ledger.deposit(account, amount)->Ok_0.balance_of(other) == ledger.balance_of(other),
        ledger.deposit(account, amount)->Ok_0.total_supply == ledger.total_supply + amount,
{
}

/// A withdrawal takes exactly the amount from the account and from the total
/// supply, and leaves every other account alone.
pub proof fn lemma_withdraw_takes_amount(
    ledger: LedgerView,
    account: Seq<char>,
    amount: u128,
    other: Seq<char>,
)
    requires
        ledger.withdraw(account, amount) is Ok,
        other != account,
    ensures
        ledger.withdraw(account, amount)->Ok_0.balance_of(account) == ledger.balance_of(account)
            - amount,
        ledger.withdraw(account, amount)->Ok_0.balance_of(other) == ledger.balance_of(other),
        ledger.withdraw(account, amount)->Ok_0.total_supply == ledger.total_supply - amount,
{
}

/// A transfer takes the amount from the sender, gives it to the receiver, and
/// leaves every other account and the total supply alone.
pub proof fn lemma_transfer_moves_amount(
    ledger: LedgerView,
    from: Seq<char>,
    to: Seq<char>,
    amount: u128,
    other: Seq<char>,
)
    requires
        ledger.transfer(from, to, amount) is Ok,
        other != from,
        other != to,
    ensures
        ledger.transfer(from, to, amount)->Ok_0.balance_of(from) == ledger.balance_of(from)
            - amount,
        ledger.transfer(from, to, amount)->Ok_0.balance_of(to) == ledger.balance_of(to) + amount,
        ledger.transfer(from, to, amount)->Ok_0.balance_of(other) == ledger.balance_of(other),
        ledger.transfer(from, to, amount)->Ok_0.total_supply == ledger.total_supply,
{
}

/// No operation of the pool takes more from an account than the account
/// holds: a trade that sells more than the trader holds, liquidity that is
/// added from less than the payer holds or removed for more shares than the
/// account holds or for more than is in custody, and a withdrawal of more
/// than the account is owed are all refused.
pub proof fn lemma_pool_needs_funds(
    s: PoolView,
    pool: Seq<char>,
    account: Seq<char>,
    side: Side,
    amount: u128,
)
    ensures
        amount > s.ledger(side).balance_of(account) ==> {
            &&& forall|token: Seq<char>|
                s.side_of(token) == Some(side) ==> #[trigger] s.add_liquidity(
                    pool,
                    account,
                    token,
                    amount,
                ) is Err
            &&& forall|token: Seq<char>|
                s.side_of(token) == Some(side) ==> #[trigger] s.finish_withdrawal(
                    account,
                    token,
                    amount,
                    TransferOutcome::Successful,
                ) is Err
            &&& forall|buy: Seq<char>, sell: Seq<char>|
                s.bought_side(buy, sell) == Some(side.other()) ==> #[trigger] s.swap(
                    pool,
                    account,
                    buy,
                    sell,
                    amount,
                ) is Err
        },
        amount > s.ledger(side).balance_of(pool) || amount > s.shares.balance_of(account)
            ==> forall|token: Seq<char>|
            s.side_of(token) == Some(side) ==> #[trigger] s.remove_liquidity(
                pool,
                account,
                token,
                amount,
            ) is Err,
{
}

/// Whatever the pool does, its three ledgers go on accounting for all they
/// issued: if each did before an operation that the pool accepts, each does
/// afterwards. (A refused operation changes nothing.)
pub proof fn lemma_pool_stays_conserved(
    s: PoolView,
    pool: Seq<char>,
    account: Seq<char>,
    token: Seq<char>,
    other: Seq<char>,
    amount: u128,
)
    requires
        s.conserved(),
    ensures
        s.add_liquidity(pool, account, token, amount) is Ok ==> s.add_liquidity(
            pool,
            account,
            token,
            amount,
        )->Ok_0.conserved(),
        s.remove_liquidity(pool, account, token, amount) is Ok ==> s.remove_liquidity(
            pool,
            account,
            token,
            amount,
        )->Ok_0.conserved(),
        s.swap(pool, account, token, other, amount) is Ok ==> s.swap(
            pool,
            account,
            token,
            other,
            amount,
        )->Ok_0.0.conserved(),
        s.receive_deposit(token, account, amount) is Ok ==> s.receive_deposit(
            token,
            account,
            amount,
        )->Ok_0.0.conserved(),
        s.finish_withdrawal(account, token, amount, TransferOutcome::Successful) is Ok
            ==> s.finish_withdrawal(
            account,
            token,
            amount,
            TransferOutcome::Successful,
        )->Ok_0.conserved(),
{
    lemma_ledger_stays_conserved(s.shares, account, pool, amount);
    lemma_ledger_stays_conserved(s.ledger_a, account, pool, amount);
    lemma_ledger_stays_conserved(s.ledger_b, account, pool, amount);
    lemma_ledger_stays_conserved(s.ledger_a, pool, account, amount);
    lemma_ledger_stays_conserved(s.ledger_b, pool, account, amount);
    if s.swap(pool, account, token, other, amount) is Ok {
        let bought = s.bought_side(token, other)->Some_0;
        let paid = s.swap(pool, account, token, other, amount)->Ok_0.1;
        lemma_ledger_stays_conserved(s.ledger(bought), pool, account, paid);
    }
}

/// Setting a descriptor touches no ledger.
pub proof fn lemma_descriptors_leave_ledgers(s: PoolView, side: Side, metadata: MetadataView)
    requires
        s.set_metadata(side, metadata) is Ok,
    ensures
        s.set_metadata(side, metadata)->Ok_0.shares == s.shares,
        s.set_metadata(side, metadata)->Ok_0.ledger_a == s.ledger_a,
        s.set_metadata(side, metadata)->Ok_0.ledger_b == s.ledger_b,
{
}

/// Two equal descriptors are never both set, whichever asset gets its
/// descriptor first.
pub proof fn lemma_equal_descriptors_refused(s: PoolView, metadata: MetadataView)
    requires
        s.meta_a is None,
        s.meta_b is None,
    ensures
        s.set_metadata(Side::A, metadata) is Ok,
        s.set_metadata(Side::A, metadata)->Ok_0.set_metadata(Side::B, metadata) == Err::<
            PoolView,
            AmmError,
        >(AmmError::SameToken),
        s.set_metadata(Side::B, metadata) is Ok,
        s.set_metadata(Side::B, metadata)->Ok_0.set_metadata(Side::A, metadata) == Err::<
            PoolView,
            AmmError,
        >(AmmError::SameToken),
{
}

/// A descriptor is set once: after it is set, setting it again is refused,
/// whatever the new descriptor, and the one that was set stays.
pub proof fn lemma_descriptor_set_once(
    s: PoolView,
    side: Side,
    first: MetadataView,
    second: MetadataView,
)
    requires
        s.set_metadata(side, first) is Ok,
    ensures
        s.set_metadata(side, first)->Ok_0.metadata(side) == Some(first),
        s.set_metadata(side, first)->Ok_0.set_metadata(side, second) == Err::<PoolView, AmmError>(
            AmmError::MetadataAlreadySet,
        ),
{
}

/// A trade never pays more than the reserve it pays from.
pub proof fn lemma_swap_output_bounded(
    x: u128,
    y: u128,
    sold_decimals: u8,
    bought_decimals: u8,
    amount: u128,
)
    requires
        swap_output(x, y, sold_decimals, bought_decimals, amount) is Some,
    ensures
        swap_output(x, y, sold_decimals, bought_decimals, amount)->Some_0 <= y,
{
    let common = common_decimals(sold_decimals, bought_decimals);
    let sold_extra = (common - sold_decimals) as nat;
    let bought_extra = (common - bought_decimals) as nat;
    let sx = scale_up(x as nat, sold_extra);
    let sy = scale_up(y as nat, bought_extra);
    let sdx = scale_up(amount as nat, sold_extra);
    let p = pow10(bought_extra) as int;
    lemma_pow10_positive(bought_extra);
    lemma_curve_output_bounded(sx, sy, sdx);
    lemma_div_is_ordered(curve_output(sx, sy, sdx) as int, sy as int, p);
    assert(sy == p * y) by (nonlinear_arith)
        requires
            sy == y * p,
    ;
    lemma_div_multiples_vanish(y as int, p);
}

/// Selling more never buys less: of two trades against the same reserves,
/// the one that sells more is paid at least as much.
pub proof fn lemma_swap_output_monotonic(
    x: u128,
    y: u128,
    sold_decimals: u8,
    bought_decimals: u8,
    less: u128,
    more: u128,
)
    requires
        less <= more,
        swap_output(x, y, sold_decimals, bought_decimals, less) is Some,
        swap_output(x, y, sold_decimals, bought_decimals, more) is Some,
    ensures
        swap_output(x, y, sold_decimals, bought_decimals, less)->Some_0 <= swap_output(
            x,
            y,
            sold_decimals,
            bought_decimals,
            more,
        )->Some_0,
{
    let common = common_decimals(sold_decimals, bought_decimals);
    let sold_extra = (common - sold_decimals) as nat;
    let bought_extra = (common - bought_decimals) as nat;
    let sx = scale_up(x as nat, sold_extra);
    let sy = scale_up(y as nat, bought_extra);
    let p = pow10(sold_extra);
    let d1 = scale_up(less as nat, sold_extra);
    let d2 = scale_up(more as nat, sold_extra);
    assert(d1 <= d2) by (nonlinear_arith)
        requires
            d1 == less * p,
            d2 == more * p,
            less <= more,
            p >= 0,
    ;
    lemma_curve_output_monotonic(sx, sy, d1, d2);
    lemma_curve_output_bounded(sx, sy, d1);
    lemma_curve_output_bounded(sx, sy, d2);
    lemma_scale_down_bounded(curve_output(sx, sy, d1), bought_extra);
    lemma_scale_down_bounded(curve_output(sx, sy, d2), bought_extra);
    lemma_pow10_positive(bought_extra);
    lemma_div_is_ordered(
        curve_output(sx, sy, d1) as int,
        curve_output(sx, sy, d2) as int,
        pow10(bought_extra) as int,
    );
}

/// A trade leaves part of the reserve behind whenever the product of the
/// reserves, at the common scale, is at least the sold reserve after the
/// trade. (Below that the quotient that the pool keeps is rounded down to
/// nothing, and the whole reserve is paid out.)
pub proof fn lemma_swap_output_below_reserve(
    x: u128,
    y: u128,
    sold_decimals: u8,
    bought_decimals: u8,
    amount: u128,
)
    requires
        swap_output(x, y, sold_decimals, bought_decimals, amount) is Some,
        scale_up(
            x as nat,
            (common_decimals(sold_decimals, bought_decimals) - sold_decimals) as nat,
        ) * scale_up(
            y as nat,
            (common_decimals(sold_decimals, bought_decimals) - bought_decimals) as nat,
        ) >= scale_up(
            x as nat,
            (common_decimals(sold_decimals, bought_decimals) - sold_decimals) as nat,
        ) + scale_up(
            amount as nat,
            (common_decimals(sold_decimals, bought_decimals) - sold_decimals) as nat,
        ),
    ensures
        swap_output(x, y, sold_decimals, bought_decimals, amount)->Some_0 < y,
{
    let common = common_decimals(sold_decimals, bought_decimals);
    let sold_extra = (common - sold_decimals) as nat;
    let bought_extra = (common - bought_decimals) as nat;
    let sx = scale_up(x as nat, sold_extra);
    let sy = scale_up(y as nat, bought_extra);
    let sdx = scale_up(amount as nat, sold_extra);
    let p = pow10(bought_extra) as int;
    let dy = curve_output(sx, sy, sdx) as int;
    lemma_pow10_positive(bought_extra);
    lemma_curve_output_below_reserve(sx, sy, sdx);
    assert(dy < p * y) by (nonlinear_arith)
        requires
            dy < sy,
            sy == y * p,
    ;
    if dy / p >= y {
        vstd::arithmetic::div_mod::lemma_fundamental_div_mod(dy, p);
        assert(p * (dy / p) >= p * y) by (nonlinear_arith)
            requires
                dy / p >= y,
                p > 0,
        ;
        vstd::arithmetic::div_mod::lemma_mod_pos_bound(dy, p);
    }
}

/// Selling more never buys less: of two trades that the same pool accepts
/// for the same trader and the same pair, the one that sells more is paid at
/// least as much.
pub proof fn lemma_swap_monotonic(
    s: PoolView,
    pool: Seq<char>,
    trader: Seq<char>,
    buy: Seq<char>,
    sell: Seq<char>,
    less: u128,
    more: u128,
)
    requires
        less <= more,
        s.swap(pool, trader, buy, sell, less) is Ok,
        s.swap(pool, trader, buy, sell, more) is Ok,
    ensures
        s.swap(pool, trader, buy, sell, less)->Ok_0.1 <= s.swap(
            pool,
            trader,
            buy,
            sell,
            more,
        )->Ok_0.1,
{
    let bought = s.bought_side(buy, sell)->Some_0;
    let sold = bought.other();
    lemma_swap_output_monotonic(
        s.ledger(sold).balance_of(pool),
        s.ledger(bought).balance_of(pool),
        s.metadata(sold)->Some_0.decimals,
        s.metadata(bought)->Some_0.decimals,
        less,
        more,
    );
}

/// A trade is paid out of custody and never more than custody holds: what
/// the trader gets is at most the reserve of the bought asset, and it is
/// what custody of that asset loses.
pub proof fn lemma_swap_paid_from_custody(
    s: PoolView,
    pool: Seq<char>,
    trader: Seq<char>,
    buy: Seq<char>,
    sell: Seq<char>,
    amount: u128,
)
    requires
        s.swap(pool, trader, buy, sell, amount) is Ok,
    ensures
        ({
            let bought = s.bought_side(buy, sell)->Some_0;
            let (after, paid) = s.swap(pool, trader, buy, sell, amount)->Ok_0;
            &&& paid <= s.ledger(bought).balance_of(pool)
            &&& after.ledger(bought).balance_of(pool) == s.ledger(bought).balance_of(pool) - paid
            &&& after.ledger(bought).balance_of(trader) == s.ledger(bought).balance_of(trader)
                + paid
            &&& after.ledger(bought.other()).balance_of(pool) == s.ledger(
                bought.other(),
            ).balance_of(pool) + amount
            &&& after.ledger(bought.other()).balance_of(trader) == s.ledger(
                bought.other(),
            ).balance_of(trader) - amount
            &&& after.shares == s.shares
        }),
{
}

/// Liquidity that is added and then removed leaves the pool as it was: the
/// removal is accepted, and every balance and every total is what it was
/// before.
pub proof fn lemma_add_then_remove_restores(
    s: PoolView,
    pool: Seq<char>,
    account: Seq<char>,
    token: Seq<char>,
    amount: u128,
)
    requires
        s.add_liquidity(pool, account, token, amount) is Ok,
    ensures
        s.add_liquidity(pool, account, token, amount)->Ok_0.remove_liquidity(
            pool,
            account,
            token,
            amount,
        ) == Ok::<PoolView, AmmError>(s),
{
    let side = s.side_of(token)->Some_0;
    let added = s.add_liquidity(pool, account, token, amount)->Ok_0;
    let removed = added.remove_liquidity(pool, account, token, amount);
    assert(removed is Ok);
    assert(removed->Ok_0.shares.balances =~= s.shares.balances);
    assert(removed->Ok_0.ledger(side).balances =~= s.ledger(side).balances);
}

/// An identifier that names neither asset is refused by every operation
/// that takes one, with the same error. Liquidity asks for the descriptors
/// first, a trade asks first that its two identifiers differ, and the
/// pool's own account names the ledger of shares where a balance is asked.
pub proof fn lemma_unsupported_asset_refused(
    s: PoolView,
    pool: Seq<char>,
    account: Seq<char>,
    token: Seq<char>,
    other: Seq<char>,
    amount: u128,
)
    requires
        s.side_of(token) is None,
    ensures
        s.request_withdrawal(token) == Err::<(), AmmError>(AmmError::TokenNotSupported),
        s.finish_withdrawal(account, token, amount, TransferOutcome::Successful) == Err::<
            PoolView,
            AmmError,
        >(AmmError::TokenNotSupported),
        s.receive_deposit(token, account, amount) == Err::<(PoolView, u128), AmmError>(
            AmmError::TokenNotSupported,
        ),
        token != pool ==> s.balance_of(pool, token, account) == Err::<u128, AmmError>(
            AmmError::TokenNotSupported,
        ),
        s.has_metadata() ==> s.add_liquidity(pool, account, token, amount) == Err::<
            PoolView,
            AmmError,
        >(AmmError::TokenNotSupported),
        s.has_metadata() ==> s.remove_liquidity(pool, account, token, amount) == Err::<
            PoolView,
            AmmError,
        >(AmmError::TokenNotSupported),
        token != other ==> s.swap(pool, account, token, other, amount) == Err::<
            (PoolView, u128),
            AmmError,
        >(AmmError::TokenNotSupported),
        token != other ==> s.swap(pool, account, other, token, amount) == Err::<
            (PoolView, u128),
            AmmError,
        >(AmmError::TokenNotSupported),
{
}

/// A withdrawal whose transfer failed changes nothing and is reported as
/// failed, whatever the asset, the account and the amount.
pub proof fn lemma_failed_transfer_changes_nothing(
    s: PoolView,
    account: Seq<char>,
    token: Seq<char>,
    amount: u128,
)
    ensures
        s.finish_withdrawal(account, token, amount, TransferOutcome::Failed) == Err::<
            PoolView,
            AmmError,
        >(AmmError::TransferFailed),
{
}

} // verus!
