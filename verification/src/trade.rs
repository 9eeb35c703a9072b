//! Buying from a curve and selling to it.

use vstd::prelude::*;

use crate::accounts::{Buy, Outcome, Sell};
use crate::actions::Action;
use crate::error::ProgramError;
use crate::events::{CompleteEvent, Event, EventLog, TradeEvent};
use crate::fees::{compute_share, share_of};
use crate::pricing::{
    buy_quote, calculate_price_and_sol, calculate_price_and_sol_sell_operation,
    lemma_buy_quote_is_exact, lemma_sell_quote_is_exact, sell_quote, PRICE_PRECISION,
};
use crate::pubkey::Pubkey;
use crate::state::{BondingCurve, CurveAccount, Escrow};

verus! {

/// The curve's record after a purchase of `amount` for `sol_cost` by `buyer`
/// that leaves the given virtual reserves. The first buyer is recorded if
/// none was, and the curve completes if its last real token has gone.
pub open spec fn curve_after_buy(
    curve: BondingCurve,
    amount: u64,
    sol_cost: u64,
    new_virtual_token_reserves: u64,
    new_virtual_sol_reserves: u64,
    buyer: Pubkey,
) -> BondingCurve {
    BondingCurve {
        virtual_token_reserves: new_virtual_token_reserves,
        virtual_sol_reserves: new_virtual_sol_reserves,
        real_token_reserves: (curve.real_token_reserves - amount) as u64,
        real_sol_reserves: (curve.real_sol_reserves + sol_cost) as u64,
        complete: curve.real_token_reserves == amount,
        first_buyer_address: if curve.first_buyer_address.is_null() {
            buyer
        } else {
            curve.first_buyer_address
        },
        ..curve
    }
}

/// The curve's record after a sale of `amount` for `sol_output` that leaves
/// the given virtual reserves.
pub open spec fn curve_after_sell(
    curve: BondingCurve,
    amount: u64,
    sol_output: u64,
    new_virtual_token_reserves: u64,
    new_virtual_sol_reserves: u64,
) -> BondingCurve {
    BondingCurve {
        virtual_token_reserves: new_virtual_token_reserves,
        virtual_sol_reserves: new_virtual_sol_reserves,
        real_token_reserves: (curve.real_token_reserves + amount) as u64,
        real_sol_reserves: (curve.real_sol_reserves - sol_output) as u64,
        ..curve
    }
}

/// An amount of currency that a quote can state has a share at every rate:
/// the unit price asks more room of it than any rate does.
pub proof fn lemma_quoted_amount_has_fees(sol_amount: u64, basis_points: u16)
    requires
        sol_amount * PRICE_PRECISION <= u64::MAX,
    ensures
        share_of(sol_amount, basis_points) is Ok,
{
    assert(sol_amount * basis_points <= sol_amount * PRICE_PRECISION) by (nonlinear_arith)
        requires
            basis_points <= PRICE_PRECISION,
            0 <= sol_amount,
    ;
}

/// What `buy` does to `pre`, or why it refuses.
///
/// The checks are made in this order, and the first that fails decides the
/// error: the curve is still active; the quote exists (see [`buy_quote`]);
/// it costs no more than `max_sol_cost`; the configuration has been
/// initialized; the fee recipient named is the configured one; the custody
/// can take the currency and has the tokens; the real currency reserve can
/// take the cost.
///
/// The two fees come on top of the cost: the buyer pays them to the fee
/// recipient and to the creator, and the curve never holds them. Both are
/// shares of the cost (see [`share_of`]), and a cost that was quoted always
/// has them (see [`lemma_quoted_amount_has_fees`]).
pub open spec fn buy_outcome(pre: Buy, amount: u64, max_sol_cost: u64, timestamp: i64) -> Result<
    Outcome<Buy>,
    ProgramError,
> {
    let pool = pre.bonding_curve;
    let curve = pool.state;
    if curve.complete {
        Err(ProgramError::BondingCurveComplete)
    } else {
        match buy_quote(
            amount,
            curve.virtual_token_reserves,
            curve.virtual_sol_reserves,
            curve.real_token_reserves,
        ) {
            Err(e) => Err(e),
            Ok((_, sol_cost, new_virtual_token_reserves, new_virtual_sol_reserves)) => {
                let admin_fee = share_of(sol_cost, pre.global.fee_basis_points);
                let creator_fee = share_of(sol_cost, pre.global.trading_fee_creator_percent_sol);
                if sol_cost > max_sol_cost {
                    Err(ProgramError::TooMuchSolRequired)
                } else if !pre.global.initialized {
                    Err(ProgramError::NotInitialized)
                } else if pre.fee_recipient != pre.global.fee_recipient {
                    Err(ProgramError::InvalidFeeRecipient)
                } else if pool.escrow.lamports + sol_cost > u64::MAX {
                    Err(ProgramError::ArithmeticOverflow)
                } else if pool.escrow.tokens < amount {
                    Err(ProgramError::InsufficientFunds)
                } else if curve.real_sol_reserves + sol_cost > u64::MAX {
                    Err(ProgramError::ArithmeticOverflow)
                } else {
                    let trade = Event::Trade(
                        TradeEvent {
                            mint: curve.mint,
                            sol_amount: sol_cost,
                            token_amount: amount,
                            is_buy: true,
                            user: pre.user,
                            timestamp,
                            virtual_sol_reserves: new_virtual_sol_reserves,
                            virtual_token_reserves: new_virtual_token_reserves,
                        },
                    );
                    let completion = Event::Complete(
                        CompleteEvent { mint: curve.mint, bonding_curve: pool.key, timestamp },
                    );
                    Ok(
                        Outcome {
                            accounts: Buy {
                                bonding_curve: CurveAccount {
                                    key: pool.key,
                                    state: curve_after_buy(
                                        curve,
                                        amount,
                                        sol_cost,
                                        new_virtual_token_reserves,
                                        new_virtual_sol_reserves,
                                        pre.user,
                                    ),
                                    escrow: Escrow {
                                        lamports: (pool.escrow.lamports + sol_cost) as u64,
                                        tokens: (pool.escrow.tokens - amount) as u64,
                                    },
                                },
                                ..pre
                            },
                            actions: seq![
                                Action::TransferSol {
                                    from: pre.user,
                                    to: pre.fee_recipient,
                                    lamports: admin_fee->Ok_0,
                                },
                                Action::TransferSol {
                                    from: pre.user,
                                    to: curve.creator_address,
                                    lamports: creator_fee->Ok_0,
                                },
                                Action::TransferSol {
                                    from: pre.user,
                                    to: pool.key,
                                    lamports: sol_cost,
                                },
                                Action::TransferTokens { from: pool.key, to: pre.user, amount },
                            ],
                            events: if curve.real_token_reserves == amount {
                                seq![completion, trade]
                            } else {
                                seq![trade]
                            },
                        },
                    )
                }
            },
        }
    }
}

/// What `sell` does to `pre`, or why it refuses.
///
/// The checks are made in this order, and the first that fails decides the
/// error: the curve is still active; the quote exists (see [`sell_quote`]);
/// it pays at least `min_sol_output`; the configuration has been
/// initialized; the fee recipient named is the configured one; the custody
/// can take the tokens; the custody has the currency; the real token
/// reserve can take the tokens; the real currency reserve covers the payout.
///
/// The seller's limit is enforced: a sale that would pay less than
/// `min_sol_output` is refused. The two fees are not taken out of the
/// payout: the seller pays them to the fee recipient and to the creator
/// besides. Both are shares of the
/// payout (see [`share_of`]), and a payout that was quoted always has them
/// (see [`lemma_quoted_amount_has_fees`]).
pub open spec fn sell_outcome(pre: Sell, amount: u64, min_sol_output: u64, timestamp: i64) -> Result<
    Outcome<Sell>,
    ProgramError,
> {
    let pool = pre.bonding_curve;
    let curve = pool.state;
    if curve.complete {
        Err(ProgramError::BondingCurveComplete)
    } else {
        match sell_quote(amount, curve.virtual_token_reserves, curve.virtual_sol_reserves) {
            Err(e) => Err(e),
            Ok((_, sol_output, new_virtual_token_reserves, new_virtual_sol_reserves)) => {
                let admin_fee = share_of(sol_output, pre.global.fee_basis_points);
                let creator_fee = share_of(sol_output, pre.global.trading_fee_creator_percent_sol);
                if sol_output < min_sol_output {
                    Err(ProgramError::TooLittleSolReceived)
                } else if !pre.global.initialized {
                    Err(ProgramError::NotInitialized)
                } else if pre.fee_recipient != pre.global.fee_recipient {
                    Err(ProgramError::InvalidFeeRecipient)
                } else if pool.escrow.tokens + amount > u64::MAX {
                    Err(ProgramError::ArithmeticOverflow)
                } else if pool.escrow.lamports < sol_output {
                    Err(ProgramError::InsufficientFunds)
                } else if curve.real_token_reserves + amount > u64::MAX {
                    Err(ProgramError::ArithmeticOverflow)
                } else if curve.real_sol_reserves < sol_output {
                    Err(ProgramError::InsufficientFunds)
                } else {
                    Ok(
                        Outcome {
                            accounts: Sell {
                                bonding_curve: CurveAccount {
                                    key: pool.key,
                                    state: curve_after_sell(
                                        curve,
                                        amount,
                                        sol_output,
                                        new_virtual_token_reserves,
                                        new_virtual_sol_reserves,
                                    ),
                                    escrow: Escrow {
                                        lamports: (pool.escrow.lamports - sol_output) as u64,
                                        tokens: (pool.escrow.tokens + amount) as u64,
                                    },
                                },
                                ..pre
                            },
                            actions: seq![
                                Action::TransferSol {
                                    from: pre.user,
                                    to: pre.fee_recipient,
                                    lamports: admin_fee->Ok_0,
                                },
                                Action::TransferSol {
                                    from: pre.user,
                                    to: curve.creator_address,
                                    lamports: creator_fee->Ok_0,
                                },
                                Action::TransferTokens { from: pre.user, to: pool.key, amount },
                                Action::TransferSol {
                                    from: pool.key,
                                    to: pre.user,
                                    lamports: sol_output,
                                },
                            ],
                            events: seq![
                                Event::Trade(
                                    TradeEvent {
                                        mint: curve.mint,
                                        sol_amount: sol_output,
                                        token_amount: amount,
                                        is_buy: false,
                                        user: pre.user,
                                        timestamp,
                                        virtual_sol_reserves: new_virtual_sol_reserves,
                                        virtual_token_reserves: new_virtual_token_reserves,
                                    },
                                ),
                            ],
                        },
                    )
                }
            },
        }
    }
}

/// Buys `amount` tokens from the curve for at most `max_sol_cost`, at the
/// time `timestamp`.
///
/// Where [`buy_outcome`] accepts, the records are changed as it says, its
/// events are added to `log`, and the movements of funds that the ledger has
/// to carry out are returned. Where it refuses, its error is returned and
/// neither the records nor `log` change.
pub fn buy(
    accounts: &mut Buy,
    log: &mut EventLog,
    amount: u64,
    max_sol_cost: u64,
    timestamp: i64,
) -> (result: Result<Vec<Action>, ProgramError>)
    ensures
        match buy_outcome(*old(accounts), amount, max_sol_cost, timestamp) {
            Ok(outcome) => result is Ok && result->Ok_0@ == outcome.actions && *final(accounts)
                == outcome.accounts && final(log)@ == old(log)@ + outcome.events,
            Err(e) => result is Err && result->Err_0 == e && *final(accounts) == *old(accounts)
                && final(log)@ == old(log)@,
        },
{
    let pool = accounts.bonding_curve;
    let curve = pool.state;
    if curve.complete {
        return Err(ProgramError::BondingCurveComplete);
    }
    let (_, sol_cost, new_virtual_token_reserves, new_virtual_sol_reserves) =
        match calculate_price_and_sol(
        amount,
        curve.virtual_token_reserves,
        curve.virtual_sol_reserves,
        curve.real_token_reserves,
        curve.real_sol_reserves,
    ) {
        Ok(quote) => quote,
        Err(e) => {
            return Err(e);
        },
    };
    if sol_cost > max_sol_cost {
        return Err(ProgramError::TooMuchSolRequired);
    }
    if !accounts.global.initialized {
        return Err(ProgramError::NotInitialized);
    }
    if !(accounts.fee_recipient == accounts.global.fee_recipient) {
        return Err(ProgramError::InvalidFeeRecipient);
    }
    proof {
        lemma_buy_quote_is_exact(
            amount,
            curve.virtual_token_reserves,
            curve.virtual_sol_reserves,
            curve.real_token_reserves,
        );
        lemma_quoted_amount_has_fees(sol_cost, accounts.global.fee_basis_points);
        lemma_quoted_amount_has_fees(sol_cost, accounts.global.trading_fee_creator_percent_sol);
    }
    let admin_fee = match compute_share(sol_cost, accounts.global.fee_basis_points) {
        Ok(fee) => fee,
        Err(e) => {
            return Err(e);
        },
    };
    let creator_fee = match compute_share(
        sol_cost,
        accounts.global.trading_fee_creator_percent_sol,
    ) {
        Ok(fee) => fee,
        Err(e) => {
            return Err(e);
        },
    };
    let mut escrow = pool.escrow;
    match escrow.credit_sol(sol_cost) {
        Ok(()) => {},
        Err(e) => {
            return Err(e);
        },
    }
    match escrow.debit_tokens(amount) {
        Ok(()) => {},
        Err(e) => {
            return Err(e);
        },
    }
    let new_real_token_reserves = curve.real_token_reserves - amount;
    let new_real_sol_reserves = match curve.real_sol_reserves.checked_add(sol_cost) {
        Some(sum) => sum,
        None => {
            return Err(ProgramError::ArithmeticOverflow);
        },
    };
    let first_buyer_address = if curve.first_buyer_address == Pubkey::default() {
        accounts.user
    } else {
        curve.first_buyer_address
    };

    accounts.bonding_curve.state = BondingCurve {
        mint: curve.mint,
        virtual_token_reserves: new_virtual_token_reserves,
        virtual_sol_reserves: new_virtual_sol_reserves,
        real_token_reserves: new_real_token_reserves,
        real_sol_reserves: new_real_sol_reserves,
        token_total_supply: curve.token_total_supply,
        complete: new_real_token_reserves == 0,
        creator_address: curve.creator_address,
        first_buyer_address,
    };
    accounts.bonding_curve.escrow = escrow;

    let mut actions: Vec<Action> = Vec::new();
    actions.push(
        Action::TransferSol { from: accounts.user, to: accounts.fee_recipient, lamports: admin_fee },
    );
    actions.push(
        Action::TransferSol { from: accounts.user, to: curve.creator_address, lamports: creator_fee },
    );
    actions.push(Action::TransferSol { from: accounts.user, to: pool.key, lamports: sol_cost });
    actions.push(Action::TransferTokens { from: pool.key, to: accounts.user, amount });

    if new_real_token_reserves == 0 {
        log.append(
            Event::Complete(CompleteEvent { mint: curve.mint, bonding_curve: pool.key, timestamp }),
        );
    }
    log.append(
        Event::Trade(
            TradeEvent {
                mint: curve.mint,
                sol_amount: sol_cost,
                token_amount: amount,
                is_buy: true,
                user: accounts.user,
                timestamp,
                virtual_sol_reserves: new_virtual_sol_reserves,
                virtual_token_reserves: new_virtual_token_reserves,
            },
        ),
    );
    Ok(actions)
}

/// Sells `amount` tokens to the curve for at least `min_sol_output`, at the
/// time `timestamp`.
///
/// Where [`sell_outcome`] accepts, the records are changed as it says, its
/// event is added to `log`, and the movements of funds that the ledger has
/// to carry out are returned. Where it refuses, its error is returned and
/// neither the records nor `log` change.
pub fn sell(
    accounts: &mut Sell,
    log: &mut EventLog,
    amount: u64,
    min_sol_output: u64,
    timestamp: i64,
) -> (result: Result<Vec<Action>, ProgramError>)
    ensures
        match sell_outcome(*old(accounts), amount, min_sol_output, timestamp) {
            Ok(outcome) => result is Ok && result->Ok_0@ == outcome.actions && *final(accounts)
                == outcome.accounts && final(log)@ == old(log)@ + outcome.events,
            Err(e) => result is Err && result->Err_0 == e && *final(accounts) == *old(accounts)
                && final(log)@ == old(log)@,
        },
{
    let pool = accounts.bonding_curve;
    let curve = pool.state;
    if curve.complete {
        return Err(ProgramError::BondingCurveComplete);
    }
    let (_, sol_output, new_virtual_token_reserves, new_virtual_sol_reserves) =
        match calculate_price_and_sol_sell_operation(
        amount,
        curve.virtual_token_reserves,
        curve.virtual_sol_reserves,
        curve.real_token_reserves,
        curve.real_sol_reserves,
    ) {
        Ok(quote) => quote,
        Err(e) => {
            return Err(e);
        },
    };
    if sol_output < min_sol_output {
        return Err(ProgramError::TooLittleSolReceived);
    }
    if !accounts.global.initialized {
        return Err(ProgramError::NotInitialized);
    }
    if !(accounts.fee_recipient == accounts.global.fee_recipient) {
        return Err(ProgramError::InvalidFeeRecipient);
    }
    proof {
        lemma_sell_quote_is_exact(
            amount,
            curve.virtual_token_reserves,
            curve.virtual_sol_reserves,
        );
        lemma_quoted_amount_has_fees(sol_output, accounts.global.fee_basis_points);
        lemma_quoted_amount_has_fees(sol_output, accounts.global.trading_fee_creator_percent_sol);
    }
    let admin_fee = match compute_share(sol_output, accounts.global.fee_basis_points) {
        Ok(fee) => fee,
        Err(e) => {
            return Err(e);
        },
    };
    let creator_fee = match compute_share(
        sol_output,
        accounts.global.trading_fee_creator_percent_sol,
    ) {
        Ok(fee) => fee,
        Err(e) => {
            return Err(e);
        },
    };
    let mut escrow = pool.escrow;
    match escrow.credit_tokens(amount) {
        Ok(()) => {},
        Err(e) => {
            return Err(e);
        },
    }
    match escrow.debit_sol(sol_output) {
        Ok(()) => {},
        Err(e) => {
            return Err(e);
        },
    }
    let new_real_token_reserves = match curve.real_token_reserves.checked_add(amount) {
        Some(sum) => sum,
        None => {
            return Err(ProgramError::ArithmeticOverflow);
        },
    };
    let new_real_sol_reserves = match curve.real_sol_reserves.checked_sub(sol_output) {
        Some(left) => left,
        None => {
            return Err(ProgramError::InsufficientFunds);
        },
    };

    accounts.bonding_curve.state = BondingCurve {
        mint: curve.mint,
        virtual_token_reserves: new_virtual_token_reserves,
        virtual_sol_reserves: new_virtual_sol_reserves,
        real_token_reserves: new_real_token_reserves,
        real_sol_reserves: new_real_sol_reserves,
        token_total_supply: curve.token_total_supply,
        complete: curve.complete,
        creator_address: curve.creator_address,
        first_buyer_address: curve.first_buyer_address,
    };
    accounts.bonding_curve.escrow = escrow;

    let mut actions: Vec<Action> = Vec::new();
    actions.push(
        Action::TransferSol { from: accounts.user, to: accounts.fee_recipient, lamports: admin_fee },
    );
    actions.push(
        Action::TransferSol { from: accounts.user, to: curve.creator_address, lamports: creator_fee },
    );
    actions.push(Action::TransferTokens { from: accounts.user, to: pool.key, amount });
    actions.push(Action::TransferSol { from: pool.key, to: accounts.user, lamports: sol_output });

    log.append(
        Event::Trade(
            TradeEvent {
                mint: curve.mint,
                sol_amount: sol_output,
                token_amount: amount,
                is_buy: false,
                user: accounts.user,
                timestamp,
                virtual_sol_reserves: new_virtual_sol_reserves,
                virtual_token_reserves: new_virtual_token_reserves,
            },
        ),
    );
    Ok(actions)
}

} // verus!
