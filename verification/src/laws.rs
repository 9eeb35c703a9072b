//! What holds of a curve over its whole life.
//!
//! The operations say what one call does. The statements here are about
//! what no sequence of calls can do: reserves never part from what was
//! really traded, a complete curve stays complete, the first buyer is
//! recorded once, and a purchase that is sold back leaves the curve where it
//! was, up to rounding.

use vstd::arithmetic::div_mod::{
    lemma_div_is_ordered, lemma_div_multiples_vanish, lemma_fundamental_div_mod, lemma_mod_bound,
};
use vstd::arithmetic::mul::{lemma_mul_inequality, lemma_mul_is_commutative};
use vstd::prelude::*;

use crate::accounts::{Buy, Sell, Withdraw};
use crate::error::ProgramError;
use crate::pricing::{
    buy_quote, lemma_buy_quote_is_exact, lemma_sell_quote_is_exact, sell_quote, PRICE_PRECISION,
};
use crate::pubkey::Pubkey;
use crate::state::{CurveAccount, Global};
use crate::trade::{buy_outcome, sell_outcome};
use crate::withdraw::withdraw_outcome;

verus! {

/// One call of an operation on a curve: everything that the call is handed
/// but the curve itself. The configuration is the one in force at the time
/// of the call, so a sequence of calls may see it change in between.
pub enum Op {
    Buy {
        global: Global,
        fee_recipient: Pubkey,
        user: Pubkey,
        amount: u64,
        max_sol_cost: u64,
        timestamp: i64,
    },
    Sell {
        global: Global,
        fee_recipient: Pubkey,
        user: Pubkey,
        amount: u64,
        min_sol_output: u64,
        timestamp: i64,
    },
    Withdraw {
        global: Global,
        fee_recipient: Pubkey,
        user: Pubkey,
        minimum_balance: u64,
        timestamp: i64,
    },
}

impl Op {
    /// Whether the call is a purchase or a sale.
    pub open spec fn is_trade(self) -> bool {
        self is Buy || self is Sell
    }

    /// Why the call is refused on `pool`, if it is.
    pub open spec fn refusal(self, pool: CurveAccount) -> Option<ProgramError> {
        match self {
            Op::Buy { global, fee_recipient, user, amount, max_sol_cost, timestamp } => {
                match buy_outcome(
                    Buy { global, fee_recipient, bonding_curve: pool, user },
                    amount,
                    max_sol_cost,
                    timestamp,
                ) {
                    Ok(_) => None,
                    Err(e) => Some(e),
                }
            },
            Op::Sell { global, fee_recipient, user, amount, min_sol_output, timestamp } => {
                match sell_outcome(
                    Sell { user, global, bonding_curve: pool, fee_recipient },
                    amount,
                    min_sol_output,
                    timestamp,
                ) {
                    Ok(_) => None,
                    Err(e) => Some(e),
                }
            },
            Op::Withdraw { global, fee_recipient, user, minimum_balance, timestamp } => {
                match withdraw_outcome(
                    Withdraw { user, bonding_curve: pool, global, fee_recipient },
                    minimum_balance,
                    timestamp,
                ) {
                    Ok(_) => None,
                    Err(e) => Some(e),
                }
            },
        }
    }

    /// The curve after the call on `pool`: as the operation leaves it where
    /// the call is accepted, and `pool` itself where it is refused.
    pub open spec fn apply(self, pool: CurveAccount) -> CurveAccount {
        match self {
            Op::Buy { global, fee_recipient, user, amount, max_sol_cost, timestamp } => {
                match buy_outcome(
                    Buy { global, fee_recipient, bonding_curve: pool, user },
                    amount,
                    max_sol_cost,
                    timestamp,
                ) {
                    Ok(outcome) => outcome.accounts.bonding_curve,
                    Err(_) => pool,
                }
            },
            Op::Sell { global, fee_recipient, user, amount, min_sol_output, timestamp } => {
                match sell_outcome(
                    Sell { user, global, bonding_curve: pool, fee_recipient },
                    amount,
                    min_sol_output,
                    timestamp,
                ) {
                    Ok(outcome) => outcome.accounts.bonding_curve,
                    Err(_) => pool,
                }
            },
            Op::Withdraw { global, fee_recipient, user, minimum_balance, timestamp } => {
                match withdraw_outcome(
                    Withdraw { user, bonding_curve: pool, global, fee_recipient },
                    minimum_balance,
                    timestamp,
                ) {
                    Ok(outcome) => outcome.accounts.bonding_curve,
                    Err(_) => pool,
                }
            },
        }
    }

    /// The tokens that the call takes out of the curve on `pool`: the amount
    /// of an accepted purchase, less the amount of an accepted sale.
    pub open spec fn tokens_out(self, pool: CurveAccount) -> int {
        if self.refusal(pool) is Some {
            0
        } else {
            match self {
                Op::Buy { amount, .. } => amount as int,
                Op::Sell { amount, .. } => -(amount as int),
                Op::Withdraw { .. } => 0,
            }
        }
    }

    /// The currency that the call brings into the curve on `pool`: the cost
    /// of an accepted purchase, less the payout of an accepted sale.
    pub open spec fn sol_in(self, pool: CurveAccount) -> int {
        if self.refusal(pool) is Some {
            0
        } else {
            match self {
                Op::Buy { amount, .. } => buy_quote(
                    amount,
                    pool.state.virtual_token_reserves,
                    pool.state.virtual_sol_reserves,
                    pool.state.real_token_reserves,
                )->Ok_0.1 as int,
                Op::Sell { amount, .. } => -(sell_quote(
                    amount,
                    pool.state.virtual_token_reserves,
                    pool.state.virtual_sol_reserves,
                )->Ok_0.1 as int),
                Op::Withdraw { .. } => 0,
            }
        }
    }
}

/// The curve after the calls `ops`, made one after the other on `pool`.
pub open spec fn replay(pool: CurveAccount, ops: Seq<Op>) -> CurveAccount
    decreases ops.len(),
{
    if ops.len() == 0 {
        pool
    } else {
        ops.last().apply(replay(pool, ops.drop_last()))
    }
}

/// The tokens that the calls `ops` take out of the curve, starting on `pool`.
pub open spec fn total_tokens_out(pool: CurveAccount, ops: Seq<Op>) -> int
    decreases ops.len(),
{
    if ops.len() == 0 {
        0
    } else {
        total_tokens_out(pool, ops.drop_last()) + ops.last().tokens_out(
            replay(pool, ops.drop_last()),
        )
    }
}

/// The currency that the calls `ops` bring into the curve, starting on `pool`.
pub open spec fn total_sol_in(pool: CurveAccount, ops: Seq<Op>) -> int
    decreases ops.len(),
{
    if ops.len() == 0 {
        0
    } else {
        total_sol_in(pool, ops.drop_last()) + ops.last().sol_in(replay(pool, ops.drop_last()))
    }
}

/// Reserves are never negative: after any sequence of purchases and sales,
/// accepted or refused, each real reserve is exactly what it was at the
/// start, less the tokens that were taken out, plus the currency that was
/// brought in, as whole numbers and without wrapping. The custody moves by
/// the same amounts, so it covers the reserves after the sequence by as
/// much as it did before.
pub proof fn lemma_reserves_never_negative(pool: CurveAccount, ops: Seq<Op>)
    requires
        forall|i: int| 0 <= i < ops.len() ==> (#[trigger] ops[i]).is_trade(),
    ensures
        0 <= pool.state.real_token_reserves - total_tokens_out(pool, ops) == replay(
            pool,
            ops,
        ).state.real_token_reserves,
        0 <= pool.state.real_sol_reserves + total_sol_in(pool, ops) == replay(
            pool,
            ops,
        ).state.real_sol_reserves,
        0 <= pool.escrow.tokens - total_tokens_out(pool, ops) == replay(pool, ops).escrow.tokens,
        0 <= pool.escrow.lamports + total_sol_in(pool, ops) == replay(pool, ops).escrow.lamports,
    decreases ops.len(),
{
    if ops.len() > 0 {
        let before = ops.drop_last();
        assert forall|i: int| 0 <= i < before.len() implies (#[trigger] before[i]).is_trade() by {
            assert(before[i] == ops[i]);
        }
        lemma_reserves_never_negative(pool, before);
        assert(ops.last().is_trade());
    }
}

/// The custody covers the reserves: where a curve holds at least the
/// currency and the tokens that its real reserves count, it still does after
/// any sequence of calls. On such a curve no accepted call can ask the
/// ledger to pay out of custody what is not there.
pub proof fn lemma_custody_covers_reserves(pool: CurveAccount, ops: Seq<Op>)
    requires
        pool.state.real_sol_reserves <= pool.escrow.lamports,
        pool.state.real_token_reserves <= pool.escrow.tokens,
    ensures
        replay(pool, ops).state.real_sol_reserves <= replay(pool, ops).escrow.lamports,
        replay(pool, ops).state.real_token_reserves <= replay(pool, ops).escrow.tokens,
    decreases ops.len(),
{
    if ops.len() > 0 {
        lemma_custody_covers_reserves(pool, ops.drop_last());
    }
}

/// No call but one that is accepted changes a curve, and none changes the
/// curve's address, its asset, its creator or its recorded total supply.
pub proof fn lemma_identity_of_a_curve_is_fixed(pool: CurveAccount, ops: Seq<Op>)
    ensures
        replay(pool, ops).key == pool.key,
        replay(pool, ops).state.mint == pool.state.mint,
        replay(pool, ops).state.creator_address == pool.state.creator_address,
        replay(pool, ops).state.token_total_supply == pool.state.token_total_supply,
        forall|i: int|
            0 <= i < ops.len() && ops[i].refusal(replay(pool, #[trigger] ops.take(i))) is Some
                ==> replay(pool, ops.take(i + 1)) == replay(pool, ops.take(i)),
    decreases ops.len(),
{
    if ops.len() > 0 {
        lemma_identity_of_a_curve_is_fixed(pool, ops.drop_last());
    }
    assert forall|i: int|
        0 <= i < ops.len() && ops[i].refusal(
            replay(pool, #[trigger] ops.take(i)),
        ) is Some implies replay(pool, ops.take(i + 1)) == replay(pool, ops.take(i)) by {
        let upto = ops.take(i + 1);
        assert(upto.drop_last() == ops.take(i));
        assert(upto.last() == ops[i]);
    }
}

/// The pricing product is recomputed, never added to: a call leaves the
/// product of the two virtual reserves as it was or lowers it, and an
/// accepted trade lowers it by less than the token side it leaves.
pub proof fn lemma_trade_recomputes_the_product(pool: CurveAccount, op: Op)
    ensures
        op.apply(pool).state.k() <= pool.state.k(),
        pool.state.k() - op.apply(pool).state.virtual_token_reserves < op.apply(pool).state.k()
            || op.apply(pool).state.k() == pool.state.k(),
{
    let vt = pool.state.virtual_token_reserves;
    let vs = pool.state.virtual_sol_reserves;
    let k = vt * vs;
    if op.refusal(pool) is None {
        match op {
            Op::Buy { amount, .. } => {
                lemma_buy_quote_is_exact(amount, vt, vs, pool.state.real_token_reserves);
                let d = vt - amount;
                lemma_fundamental_div_mod(k, d);
                lemma_mod_bound(k, d);
            },
            Op::Sell { amount, .. } => {
                lemma_sell_quote_is_exact(amount, vt, vs);
                let d = vt + amount;
                lemma_fundamental_div_mod(k, d);
                lemma_mod_bound(k, d);
            },
            Op::Withdraw { .. } => {},
        }
    }
}

/// After any sequence of calls the pricing product is no higher than it was.
pub proof fn lemma_product_never_grows(pool: CurveAccount, ops: Seq<Op>)
    ensures
        replay(pool, ops).state.k() <= pool.state.k(),
    decreases ops.len(),
{
    if ops.len() > 0 {
        lemma_product_never_grows(pool, ops.drop_last());
        lemma_trade_recomputes_the_product(replay(pool, ops.drop_last()), ops.last());
    }
}

/// A curve whose record says that it is complete only when no real token is
/// left keeps that property through any sequence of calls.
pub proof fn lemma_complete_curve_holds_no_tokens(pool: CurveAccount, ops: Seq<Op>)
    requires
        pool.state.wf(),
    ensures
        replay(pool, ops).state.wf(),
    decreases ops.len(),
{
    if ops.len() > 0 {
        lemma_complete_curve_holds_no_tokens(pool, ops.drop_last());
    }
}

/// Completion is for good: on a complete curve every purchase and every sale
/// is refused as complete, and after any sequence of calls the curve is
/// still complete. So this holds before each call of the sequence too.
pub proof fn lemma_completion_is_permanent(pool: CurveAccount, ops: Seq<Op>)
    requires
        pool.state.complete,
    ensures
        replay(pool, ops).state.complete,
        forall|i: int|
            0 <= i < ops.len() ==> replay(pool, #[trigger] ops.take(i)).state.complete,
        forall|i: int|
            0 <= i < ops.len() && ops[i].is_trade() ==> ops[i].refusal(
                replay(pool, #[trigger] ops.take(i)),
            ) == Some(ProgramError::BondingCurveComplete),
    decreases ops.len(),
{
    if ops.len() > 0 {
        let before = ops.drop_last();
        lemma_completion_is_permanent(pool, before);
        assert forall|i: int| 0 <= i < ops.len() implies replay(
            pool,
            #[trigger] ops.take(i),
        ).state.complete by {
            if i < before.len() {
                assert(ops.take(i) == before.take(i));
            } else {
                assert(ops.take(i) == before);
            }
        }
    }
}

/// The first buyer changes only by the first purchase: an accepted purchase
/// on a curve that has no first buyer records its buyer, and no other call
/// changes what is recorded.
pub proof fn lemma_first_buyer_set_by_first_purchase(pool: CurveAccount, op: Op)
    ensures
        op.apply(pool).state.first_buyer_address == if op is Buy && op.refusal(pool) is None
            && pool.state.first_buyer_address.is_null() {
            op->Buy_user
        } else {
            pool.state.first_buyer_address
        },
{
}

/// The first buyer is never overwritten: once one is recorded, it is the
/// same after any sequence of calls.
pub proof fn lemma_first_buyer_never_overwritten(pool: CurveAccount, ops: Seq<Op>)
    requires
        !pool.state.first_buyer_address.is_null(),
    ensures
        replay(pool, ops).state.first_buyer_address == pool.state.first_buyer_address,
    decreases ops.len(),
{
    if ops.len() > 0 {
        lemma_first_buyer_never_overwritten(pool, ops.drop_last());
        lemma_first_buyer_set_by_first_purchase(replay(pool, ops.drop_last()), ops.last());
    }
}

/// The first buyer is recorded once: where a purchase by a buyer other than
/// the null identity is accepted on a curve that has no first buyer, that
/// buyer is the first buyer after the purchase and after any sequence of
/// calls that follows it.
pub proof fn lemma_first_buyer_recorded_once(pool: CurveAccount, purchase: Op, rest: Seq<Op>)
    requires
        pool.state.first_buyer_address.is_null(),
        purchase is Buy,
        purchase.refusal(pool) is None,
        !purchase->Buy_user.is_null(),
    ensures
        purchase.apply(pool).state.first_buyer_address == purchase->Buy_user,
        replay(purchase.apply(pool), rest).state.first_buyer_address == purchase->Buy_user,
{
    lemma_first_buyer_set_by_first_purchase(pool, purchase);
    lemma_first_buyer_never_overwritten(purchase.apply(pool), rest);
}

/// A purchase of exactly what the curve has left completes it and reports
/// the completion before the trade. A purchase of less leaves it active. A
/// purchase of more, on an active curve, is refused for want of tokens.
pub proof fn lemma_exact_drain(pre: Buy, amount: u64, max_sol_cost: u64, timestamp: i64)
    ensures
        match buy_outcome(pre, amount, max_sol_cost, timestamp) {
            Ok(outcome) => {
                let drained = amount == pre.bonding_curve.state.real_token_reserves;
                &&& amount <= pre.bonding_curve.state.real_token_reserves
                &&& outcome.accounts.bonding_curve.state.complete == drained
                &&& outcome.accounts.bonding_curve.state.real_token_reserves == 0 <==> drained
                &&& drained ==> outcome.events.len() == 2 && outcome.events[0] is Complete
                    && outcome.events[1] is Trade
                &&& !drained ==> outcome.events.len() == 1 && outcome.events[0] is Trade
            },
            Err(e) => amount > pre.bonding_curve.state.real_token_reserves
                && !pre.bonding_curve.state.complete ==> e == ProgramError::InsufficientTokens,
        },
{
}

/// Selling back what was just bought, quote by quote: the virtual token
/// reserve returns to where it was; the virtual currency reserve returns to
/// where it was or to one unit below, since both recomputations round down;
/// and the sale pays what the purchase cost or one unit more, at a unit
/// price that is no lower.
pub proof fn lemma_round_trip_quotes(
    amount: u64,
    virtual_token_reserves: u64,
    virtual_sol_reserves: u64,
    real_token_reserves: u64,
)
    ensures
        match buy_quote(amount, virtual_token_reserves, virtual_sol_reserves, real_token_reserves) {
            Ok((buy_price, sol_cost, mid_token_reserves, mid_sol_reserves)) => match sell_quote(
                amount,
                mid_token_reserves,
                mid_sol_reserves,
            ) {
                Ok((sell_price, sol_output, end_token_reserves, end_sol_reserves)) => {
                    &&& end_token_reserves == virtual_token_reserves
                    &&& virtual_sol_reserves - 1 <= end_sol_reserves <= virtual_sol_reserves
                    &&& sol_cost <= sol_output <= sol_cost + 1
                    &&& end_sol_reserves == virtual_sol_reserves ==> sol_output == sol_cost
                    &&& buy_price <= sell_price
                },
                Err(_) => true,
            },
            Err(_) => true,
        },
{
    let bought = buy_quote(amount, virtual_token_reserves, virtual_sol_reserves, real_token_reserves);
    if let Ok((buy_price, sol_cost, mid_token_reserves, mid_sol_reserves)) = bought {
        let sold = sell_quote(amount, mid_token_reserves, mid_sol_reserves);
        if let Ok((sell_price, sol_output, end_token_reserves, end_sol_reserves)) = sold {
            lemma_buy_quote_is_exact(
                amount,
                virtual_token_reserves,
                virtual_sol_reserves,
                real_token_reserves,
            );
            lemma_sell_quote_is_exact(amount, mid_token_reserves, mid_sol_reserves);
            let vt = virtual_token_reserves as int;
            let vs = virtual_sol_reserves as int;
            let mid_vt = mid_token_reserves as int;
            let mid_vs = mid_sol_reserves as int;
            let end_vs = end_sol_reserves as int;
            let k = vt * vs;
            let mid_k = mid_vt * mid_vs;

            // The product after the purchase is the old one less a remainder
            // that is smaller than the token side.
            lemma_fundamental_div_mod(k, mid_vt);
            lemma_mod_bound(k, mid_vt);
            assert(k - vt < mid_k <= k);
            assert(0 <= mid_k) by (nonlinear_arith)
                requires
                    mid_k == mid_vt * mid_vs,
                    0 <= mid_vt,
                    0 <= mid_vs,
            ;

            // So the currency side comes back to where it was, or to one below.
            assert(k / vt == vs) by {
                lemma_mul_is_commutative(vt, vs);
                lemma_div_multiples_vanish(vs, vt);
            }
            lemma_div_is_ordered(mid_k, k, vt);
            if vs >= 1 {
                let low = (vs - 1) * vt;
                assert(low == k - vt) by (nonlinear_arith)
                    requires
                        low == (vs - 1) * vt,
                        k == vt * vs,
                ;
                lemma_div_is_ordered(low, mid_k, vt);
                lemma_div_multiples_vanish(vs - 1, vt);
            }
            assert(vs - 1 <= end_vs <= vs);

            // What changes hands differs by what the currency side lost.
            assert(sol_cost <= sol_output <= sol_cost + 1);
            lemma_mul_inequality(sol_cost as int, sol_output as int, PRICE_PRECISION as int);
            lemma_div_is_ordered(
                sol_cost * PRICE_PRECISION,
                sol_output * PRICE_PRECISION,
                amount as int,
            );
        }
    }
}

/// A round trip on a curve that has taken in no currency yet, as a curve
/// that was just opened has not: where a purchase is accepted and a sale of
/// the same amount, made right after it, is accepted too, the sale pays
/// exactly what the purchase cost, so its unit price is no higher; both real
/// reserves and the custody are where they were; the virtual token reserve is
/// where it was; and the virtual currency reserve is where it was or one
/// unit below.
pub proof fn lemma_round_trip_on_fresh_curve(
    first: Buy,
    amount: u64,
    max_sol_cost: u64,
    bought_at: i64,
    then: Sell,
    min_sol_output: u64,
    sold_at: i64,
)
    requires
        first.bonding_curve.state.real_sol_reserves == 0,
        buy_outcome(first, amount, max_sol_cost, bought_at) is Ok,
        then.bonding_curve == buy_outcome(
            first,
            amount,
            max_sol_cost,
            bought_at,
        )->Ok_0.accounts.bonding_curve,
        sell_outcome(then, amount, min_sol_output, sold_at) is Ok,
    ensures
        ({
            let start = first.bonding_curve;
            let mid = then.bonding_curve;
            let end = sell_outcome(then, amount, min_sol_output, sold_at)->Ok_0.accounts.bonding_curve;
            let (buy_price, sol_cost, _, _) = buy_quote(
                amount,
                start.state.virtual_token_reserves,
                start.state.virtual_sol_reserves,
                start.state.real_token_reserves,
            )->Ok_0;
            let (sell_price, sol_output, _, _) = sell_quote(
                amount,
                mid.state.virtual_token_reserves,
                mid.state.virtual_sol_reserves,
            )->Ok_0;
            &&& sol_output == sol_cost
            &&& sell_price <= buy_price
            &&& end.state.real_token_reserves == start.state.real_token_reserves
            &&& end.state.real_sol_reserves == 0
            &&& end.escrow == start.escrow
            &&& end.state.virtual_token_reserves == start.state.virtual_token_reserves
            &&& start.state.virtual_sol_reserves - 1 <= end.state.virtual_sol_reserves
                <= start.state.virtual_sol_reserves
        }),
{
    let start = first.bonding_curve.state;
    let mid = then.bonding_curve.state;
    lemma_round_trip_quotes(
        amount,
        start.virtual_token_reserves,
        start.virtual_sol_reserves,
        start.real_token_reserves,
    );
    // The sale is paid out of what the purchase brought in, and of nothing
    // else, so it cannot pay the one unit more that rounding might add.
    lemma_buy_quote_is_exact(
        amount,
        start.virtual_token_reserves,
        start.virtual_sol_reserves,
        start.real_token_reserves,
    );
    lemma_sell_quote_is_exact(amount, mid.virtual_token_reserves, mid.virtual_sol_reserves);
}

} // verus!
