//! Constant-product pricing.
//!
//! A curve prices a trade by holding the product of its two virtual
//! reserves: after the token side has moved by the amount traded, the
//! currency side is *recomputed* as the old product divided by the new token
//! side, rounded down, and the currency that changes hands is the
//! difference between the old and the new currency side, divided by a fixed
//! scaling factor and rounded down again. Nothing here reads or writes a
//! record: a quote is a function of the numbers alone.
//!
//! Rounding the new currency side down rounds the cost of a purchase down
//! and the payout of a sale up, each by less than one unit before scaling
//! (see [`lemma_buy_quote_rounds_down`] and [`lemma_sell_quote_rounding`]).
//! A purchase that is sold back at once is therefore quoted what it cost or
//! one unit more, never less. The curve is protected from paying that unit
//! by its real currency reserve, which a sale cannot overdraw.

use vstd::arithmetic::div_mod::{
    lemma_div_is_ordered, lemma_div_is_ordered_by_denominator, lemma_div_multiples_vanish,
    lemma_fundamental_div_mod, lemma_mod_bound,
};
use vstd::arithmetic::mul::{lemma_mul_inequality, lemma_mul_is_commutative};
use vstd::prelude::*;

use crate::error::ProgramError;

verus! {

/// By how much the raw currency difference is divided to give the amount
/// that is charged or paid.
pub const SCALING_FACTOR: u64 = 100;

/// The unit price is stated in millionths of a currency unit per token unit.
pub const PRICE_PRECISION: u64 = 1_000_000;

/// The currency side that holds the product `virtual_token_reserves *
/// virtual_sol_reserves` once the token side is `new_virtual_token_reserves`.
pub open spec fn recomputed_sol_reserves(
    virtual_token_reserves: int,
    virtual_sol_reserves: int,
    new_virtual_token_reserves: int,
) -> int {
    (virtual_token_reserves * virtual_sol_reserves) / new_virtual_token_reserves
}

/// The amount charged or paid for a raw currency difference.
pub open spec fn scaled_sol(raw: int) -> int {
    raw / (SCALING_FACTOR as int)
}

/// The average price of one token unit in a trade of `token_amount` units
/// for `sol_amount`.
pub open spec fn price_per_token(sol_amount: int, token_amount: int) -> int {
    (sol_amount * PRICE_PRECISION) / token_amount
}

/// What a purchase of `token_amount` units costs: the unit price, the
/// currency to pay, and the two virtual reserves after the purchase.
///
/// A purchase of more than the curve really holds is refused for want of
/// tokens. It is refused for its arithmetic where it asks for nothing, where
/// it would leave no virtual tokens to divide by, or where a result leaves
/// the 64-bit domain.
pub open spec fn buy_quote(
    token_amount: u64,
    virtual_token_reserves: u64,
    virtual_sol_reserves: u64,
    real_token_reserves: u64,
) -> Result<(u64, u64, u64, u64), ProgramError> {
    let new_virtual_token_reserves = virtual_token_reserves - token_amount;
    let new_virtual_sol_reserves = recomputed_sol_reserves(
        virtual_token_reserves as int,
        virtual_sol_reserves as int,
        new_virtual_token_reserves,
    );
    let sol_cost = scaled_sol(new_virtual_sol_reserves - virtual_sol_reserves);
    if token_amount > real_token_reserves {
        Err(ProgramError::InsufficientTokens)
    } else if token_amount == 0 || new_virtual_token_reserves <= 0 || new_virtual_sol_reserves
        > u64::MAX || sol_cost * PRICE_PRECISION > u64::MAX {
        Err(ProgramError::ArithmeticOverflow)
    } else {
        Ok(
            (
                price_per_token(sol_cost, token_amount as int) as u64,
                sol_cost as u64,
                new_virtual_token_reserves as u64,
                new_virtual_sol_reserves as u64,
            ),
        )
    }
}

/// What a sale of `token_amount` units pays: the unit price, the currency
/// paid out, and the two virtual reserves after the sale.
///
/// A sale is refused for its arithmetic where it offers nothing or where a
/// result leaves the 64-bit domain. The curve's real reserves play no part.
pub open spec fn sell_quote(
    token_amount: u64,
    virtual_token_reserves: u64,
    virtual_sol_reserves: u64,
) -> Result<(u64, u64, u64, u64), ProgramError> {
    let new_virtual_token_reserves = virtual_token_reserves + token_amount;
    let new_virtual_sol_reserves = recomputed_sol_reserves(
        virtual_token_reserves as int,
        virtual_sol_reserves as int,
        new_virtual_token_reserves,
    );
    let sol_output = scaled_sol(virtual_sol_reserves - new_virtual_sol_reserves);
    if token_amount == 0 || new_virtual_token_reserves > u64::MAX || sol_output * PRICE_PRECISION
        > u64::MAX {
        Err(ProgramError::ArithmeticOverflow)
    } else {
        Ok(
            (
                price_per_token(sol_output, token_amount as int) as u64,
                sol_output as u64,
                new_virtual_token_reserves as u64,
                new_virtual_sol_reserves as u64,
            ),
        )
    }
}

/// Taking tokens out of the virtual reserve never lowers the recomputed
/// currency reserve.
pub proof fn lemma_recomputed_reserve_after_buy(
    virtual_token_reserves: int,
    virtual_sol_reserves: int,
    new_virtual_token_reserves: int,
)
    requires
        0 < new_virtual_token_reserves <= virtual_token_reserves,
        0 <= virtual_sol_reserves,
    ensures
        virtual_sol_reserves <= recomputed_sol_reserves(
            virtual_token_reserves,
            virtual_sol_reserves,
            new_virtual_token_reserves,
        ),
{
    let k = virtual_token_reserves * virtual_sol_reserves;
    let floor = new_virtual_token_reserves * virtual_sol_reserves;
    lemma_mul_inequality(new_virtual_token_reserves, virtual_token_reserves, virtual_sol_reserves);
    lemma_div_is_ordered(floor, k, new_virtual_token_reserves);
    lemma_mul_is_commutative(new_virtual_token_reserves, virtual_sol_reserves);
    lemma_div_multiples_vanish(virtual_sol_reserves, new_virtual_token_reserves);
}

/// Putting tokens into the virtual reserve never raises the recomputed
/// currency reserve, and never makes it negative.
pub proof fn lemma_recomputed_reserve_after_sell(
    virtual_token_reserves: int,
    virtual_sol_reserves: int,
    new_virtual_token_reserves: int,
)
    requires
        0 <= virtual_token_reserves <= new_virtual_token_reserves,
        0 < new_virtual_token_reserves,
        0 <= virtual_sol_reserves,
    ensures
        0 <= recomputed_sol_reserves(
            virtual_token_reserves,
            virtual_sol_reserves,
            new_virtual_token_reserves,
        ) <= virtual_sol_reserves,
{
    let k = virtual_token_reserves * virtual_sol_reserves;
    let ceiling = new_virtual_token_reserves * virtual_sol_reserves;
    lemma_mul_inequality(virtual_token_reserves, new_virtual_token_reserves, virtual_sol_reserves);
    assert(0 <= k) by (nonlinear_arith)
        requires
            k == virtual_token_reserves * virtual_sol_reserves,
            0 <= virtual_token_reserves,
            0 <= virtual_sol_reserves,
    ;
    lemma_div_is_ordered(k, ceiling, new_virtual_token_reserves);
    lemma_div_is_ordered(0, k, new_virtual_token_reserves);
    lemma_mul_is_commutative(new_virtual_token_reserves, virtual_sol_reserves);
    lemma_div_multiples_vanish(virtual_sol_reserves, new_virtual_token_reserves);
}

/// The numbers of a purchase quote are the whole numbers of the formulas,
/// none of them cut to fit: the token side falls by the amount, the currency
/// side is the product divided by the new token side and is no lower than
/// before, the cost is the hundredth part of the rise, and the unit price is
/// the cost in millionths divided by the amount.
pub proof fn lemma_buy_quote_is_exact(
    token_amount: u64,
    virtual_token_reserves: u64,
    virtual_sol_reserves: u64,
    real_token_reserves: u64,
)
    ensures
        match buy_quote(
            token_amount,
            virtual_token_reserves,
            virtual_sol_reserves,
            real_token_reserves,
        ) {
            Ok((price, sol_cost, new_virtual_token_reserves, new_virtual_sol_reserves)) => {
                &&& 0 < token_amount <= real_token_reserves
                &&& 0 < new_virtual_token_reserves == virtual_token_reserves - token_amount
                &&& new_virtual_sol_reserves == (virtual_token_reserves * virtual_sol_reserves)
                    / (new_virtual_token_reserves as int)
                &&& virtual_sol_reserves <= new_virtual_sol_reserves
                &&& sol_cost == (new_virtual_sol_reserves - virtual_sol_reserves) / 100
                &&& sol_cost * PRICE_PRECISION <= u64::MAX
                &&& price == (sol_cost * PRICE_PRECISION) / (token_amount as int)
            },
            Err(_) => true,
        },
{
    if buy_quote(token_amount, virtual_token_reserves, virtual_sol_reserves, real_token_reserves)
        is Ok {
        lemma_recomputed_reserve_after_buy(
            virtual_token_reserves as int,
            virtual_sol_reserves as int,
            virtual_token_reserves - token_amount,
        );
        let sol_cost = scaled_sol(
            recomputed_sol_reserves(
                virtual_token_reserves as int,
                virtual_sol_reserves as int,
                virtual_token_reserves - token_amount,
            ) - virtual_sol_reserves,
        );
        lemma_price_within_scaled_amount(sol_cost, token_amount as int);
    }
}

/// The numbers of a sale quote are the whole numbers of the formulas, none
/// of them cut to fit: the token side rises by the amount, the currency side
/// is the product divided by the new token side and is no higher than
/// before, the payout is the hundredth part of the fall, and the unit price
/// is the payout in millionths divided by the amount.
pub proof fn lemma_sell_quote_is_exact(
    token_amount: u64,
    virtual_token_reserves: u64,
    virtual_sol_reserves: u64,
)
    ensures
        match sell_quote(token_amount, virtual_token_reserves, virtual_sol_reserves) {
            Ok((price, sol_output, new_virtual_token_reserves, new_virtual_sol_reserves)) => {
                &&& 0 < token_amount
                &&& new_virtual_token_reserves == virtual_token_reserves + token_amount
                &&& new_virtual_sol_reserves == (virtual_token_reserves * virtual_sol_reserves)
                    / (new_virtual_token_reserves as int)
                &&& new_virtual_sol_reserves <= virtual_sol_reserves
                &&& sol_output == (virtual_sol_reserves - new_virtual_sol_reserves) / 100
                &&& sol_output * PRICE_PRECISION <= u64::MAX
                &&& price == (sol_output * PRICE_PRECISION) / (token_amount as int)
            },
            Err(_) => true,
        },
{
    if sell_quote(token_amount, virtual_token_reserves, virtual_sol_reserves) is Ok {
        lemma_recomputed_reserve_after_sell(
            virtual_token_reserves as int,
            virtual_sol_reserves as int,
            virtual_token_reserves + token_amount,
        );
        let sol_output = scaled_sol(
            virtual_sol_reserves - recomputed_sol_reserves(
                virtual_token_reserves as int,
                virtual_sol_reserves as int,
                virtual_token_reserves + token_amount,
            ),
        );
        lemma_price_within_scaled_amount(sol_output, token_amount as int);
    }
}

/// A unit price is never negative and never more than the amount in
/// millionths.
proof fn lemma_price_within_scaled_amount(sol_amount: int, token_amount: int)
    requires
        0 <= sol_amount,
        0 < token_amount,
    ensures
        0 <= price_per_token(sol_amount, token_amount) <= sol_amount * PRICE_PRECISION,
{
    let scaled = sol_amount * PRICE_PRECISION;
    assert(0 <= scaled) by (nonlinear_arith)
        requires
            scaled == sol_amount * 1_000_000,
            0 <= sol_amount,
    ;
    lemma_div_is_ordered(0, scaled, token_amount);
    lemma_div_is_ordered_by_denominator(scaled, 1, token_amount);
}

/// Which way a purchase rounds: both the recomputation and the scaling round
/// down. Held against the product, which asks `virtual_sol_reserves *
/// token_amount` for the tokens taken out when both sides are multiplied by
/// the new token side, the cost times the scaling factor is never more, and
/// is short by less than the scaling factor for each virtual token left.
pub proof fn lemma_buy_quote_rounds_down(
    token_amount: u64,
    virtual_token_reserves: u64,
    virtual_sol_reserves: u64,
    real_token_reserves: u64,
)
    ensures
        match buy_quote(
            token_amount,
            virtual_token_reserves,
            virtual_sol_reserves,
            real_token_reserves,
        ) {
            Ok((_, sol_cost, new_virtual_token_reserves, _)) => {
                let exact = virtual_sol_reserves * token_amount;
                let charged = SCALING_FACTOR * sol_cost * new_virtual_token_reserves;
                exact - SCALING_FACTOR * new_virtual_token_reserves < charged <= exact
            },
            Err(_) => true,
        },
{
    let quote = buy_quote(
        token_amount,
        virtual_token_reserves,
        virtual_sol_reserves,
        real_token_reserves,
    );
    if let Ok((_, sol_cost, new_virtual_token_reserves, new_virtual_sol_reserves)) = quote {
        lemma_buy_quote_is_exact(
            token_amount,
            virtual_token_reserves,
            virtual_sol_reserves,
            real_token_reserves,
        );
        let vt = virtual_token_reserves as int;
        let vs = virtual_sol_reserves as int;
        let a = token_amount as int;
        let d = new_virtual_token_reserves as int;
        let q = new_virtual_sol_reserves as int;
        let c = sol_cost as int;
        let k = vt * vs;
        lemma_fundamental_div_mod(k, d);
        lemma_mod_bound(k, d);
        let raw = q - vs;
        // d * raw is k - d * vs, less the remainder of k by d
        assert(d * raw == k - k % d - d * vs) by (nonlinear_arith)
            requires
                k == d * q + k % d,
                raw == q - vs,
        ;
        assert(k - d * vs == vs * a) by (nonlinear_arith)
            requires
                k == vt * vs,
                d == vt - a,
        ;
        assert(100 * c <= raw < 100 * c + 100);
        assert(100 * c * d <= raw * d && raw * d <= (100 * c + 99) * d) by (nonlinear_arith)
            requires
                100 * c <= raw <= 100 * c + 99,
                0 < d,
        ;
        assert(raw * d == d * raw) by (nonlinear_arith);
        assert((100 * c + 99) * d == 100 * c * d + 99 * d) by (nonlinear_arith);
        assert(SCALING_FACTOR * sol_cost * new_virtual_token_reserves == 100 * c * d);
        assert(SCALING_FACTOR * new_virtual_token_reserves == 100 * d);
    }
}

/// Which way a sale rounds: the recomputation rounds the new currency side
/// down, which rounds what leaves it up, and the scaling rounds down. Held
/// against the product, which gives `virtual_sol_reserves * token_amount`
/// for the tokens put in when both sides are multiplied by the new token
/// side, the payout times the scaling factor is over by less than one unit
/// for each virtual token, and short by less than the scaling factor for
/// each virtual token.
pub proof fn lemma_sell_quote_rounding(
    token_amount: u64,
    virtual_token_reserves: u64,
    virtual_sol_reserves: u64,
)
    ensures
        match sell_quote(token_amount, virtual_token_reserves, virtual_sol_reserves) {
            Ok((_, sol_output, new_virtual_token_reserves, _)) => {
                let exact = virtual_sol_reserves * token_amount;
                let paid = SCALING_FACTOR * sol_output * new_virtual_token_reserves;
                exact - SCALING_FACTOR * new_virtual_token_reserves < paid < exact
                    + new_virtual_token_reserves
            },
            Err(_) => true,
        },
{
    let quote = sell_quote(token_amount, virtual_token_reserves, virtual_sol_reserves);
    if let Ok((_, sol_output, new_virtual_token_reserves, new_virtual_sol_reserves)) = quote {
        lemma_sell_quote_is_exact(token_amount, virtual_token_reserves, virtual_sol_reserves);
        let vt = virtual_token_reserves as int;
        let vs = virtual_sol_reserves as int;
        let a = token_amount as int;
        let d = new_virtual_token_reserves as int;
        let q = new_virtual_sol_reserves as int;
        let c = sol_output as int;
        let k = vt * vs;
        lemma_fundamental_div_mod(k, d);
        lemma_mod_bound(k, d);
        let raw = vs - q;
        assert(d * raw == d * vs - k + k % d) by (nonlinear_arith)
            requires
                k == d * q + k % d,
                raw == vs - q,
        ;
        assert(d * vs - k == vs * a) by (nonlinear_arith)
            requires
                k == vt * vs,
                d == vt + a,
        ;
        assert(100 * c <= raw < 100 * c + 100);
        assert(100 * c * d <= raw * d && raw * d <= (100 * c + 99) * d) by (nonlinear_arith)
            requires
                100 * c <= raw <= 100 * c + 99,
                0 < d,
        ;
        assert(raw * d == d * raw) by (nonlinear_arith);
        assert((100 * c + 99) * d == 100 * c * d + 99 * d) by (nonlinear_arith);
        assert(SCALING_FACTOR * sol_output * new_virtual_token_reserves == 100 * c * d);
        assert(SCALING_FACTOR * new_virtual_token_reserves == 100 * d);
    }
}

/// Quotes a purchase of `token_amount` units on a curve with the given
/// reserves. See [`buy_quote`]. The real currency reserve plays no part.
pub fn calculate_price_and_sol(
    token_amount: u64,
    virtual_token_reserves: u64,
    virtual_sol_reserves: u64,
    real_token_reserves: u64,
    real_sol_reserves: u64,
) -> (result: Result<(u64, u64, u64, u64), ProgramError>)
    ensures
        result == buy_quote(
            token_amount,
            virtual_token_reserves,
            virtual_sol_reserves,
            real_token_reserves,
        ),
{
    if token_amount > real_token_reserves {
        return Err(ProgramError::InsufficientTokens);
    }
    assert(virtual_token_reserves * virtual_sol_reserves <= u128::MAX) by (nonlinear_arith)
        requires
            virtual_token_reserves <= u64::MAX,
            virtual_sol_reserves <= u64::MAX,
    ;
    let k: u128 = (virtual_token_reserves as u128) * (virtual_sol_reserves as u128);
    let new_virtual_token_reserves = match virtual_token_reserves.checked_sub(token_amount) {
        Some(left) => left,
        None => {
            return Err(ProgramError::ArithmeticOverflow);
        },
    };
    if new_virtual_token_reserves == 0 {
        return Err(ProgramError::ArithmeticOverflow);
    }
    let quotient: u128 = k / (new_virtual_token_reserves as u128);
    if quotient > u64::MAX as u128 {
        return Err(ProgramError::ArithmeticOverflow);
    }
    let new_virtual_sol_reserves = quotient as u64;
    proof {
        lemma_recomputed_reserve_after_buy(
            virtual_token_reserves as int,
            virtual_sol_reserves as int,
            new_virtual_token_reserves as int,
        );
    }
    let sol_required = new_virtual_sol_reserves - virtual_sol_reserves;
    let scaled_sol_required = sol_required / SCALING_FACTOR;
    let scaled_up = match scaled_sol_required.checked_mul(PRICE_PRECISION) {
        Some(product) => product,
        None => {
            return Err(ProgramError::ArithmeticOverflow);
        },
    };
    let price_per_token = match scaled_up.checked_div(token_amount) {
        Some(price) => price,
        None => {
            return Err(ProgramError::ArithmeticOverflow);
        },
    };
    Ok((price_per_token, scaled_sol_required, new_virtual_token_reserves, new_virtual_sol_reserves))
}

/// Quotes a sale of `token_amount` units on a curve with the given
/// reserves. See [`sell_quote`]. The real reserves play no part.
pub fn calculate_price_and_sol_sell_operation(
    token_amount: u64,
    virtual_token_reserves: u64,
    virtual_sol_reserves: u64,
    real_token_reserves: u64,
    real_sol_reserves: u64,
) -> (result: Result<(u64, u64, u64, u64), ProgramError>)
    ensures
        result == sell_quote(token_amount, virtual_token_reserves, virtual_sol_reserves),
{
    assert(virtual_token_reserves * virtual_sol_reserves <= u128::MAX) by (nonlinear_arith)
        requires
            virtual_token_reserves <= u64::MAX,
            virtual_sol_reserves <= u64::MAX,
    ;
    let k: u128 = (virtual_token_reserves as u128) * (virtual_sol_reserves as u128);
    let new_virtual_token_reserves = match virtual_token_reserves.checked_add(token_amount) {
        Some(sum) => sum,
        None => {
            return Err(ProgramError::ArithmeticOverflow);
        },
    };
    if new_virtual_token_reserves == 0 {
        return Err(ProgramError::ArithmeticOverflow);
    }
    let quotient: u128 = k / (new_virtual_token_reserves as u128);
    proof {
        lemma_recomputed_reserve_after_sell(
            virtual_token_reserves as int,
            virtual_sol_reserves as int,
            new_virtual_token_reserves as int,
        );
    }
    let new_virtual_sol_reserves = quotient as u64;
    let sol_required = virtual_sol_reserves - new_virtual_sol_reserves;
    let scaled_sol_required = sol_required / SCALING_FACTOR;
    let scaled_up = match scaled_sol_required.checked_mul(PRICE_PRECISION) {
        Some(product) => product,
        None => {
            return Err(ProgramError::ArithmeticOverflow);
        },
    };
    let price_per_token = match scaled_up.checked_div(token_amount) {
        Some(price) => price,
        None => {
            return Err(ProgramError::ArithmeticOverflow);
        },
    };
    Ok((price_per_token, scaled_sol_required, new_virtual_token_reserves, new_virtual_sol_reserves))
}

} // verus!
