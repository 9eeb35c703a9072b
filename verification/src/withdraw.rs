//! Taking out what a curve holds.

use vstd::prelude::*;

use crate::accounts::{Outcome, Withdraw};
use crate::actions::Action;
use crate::error::ProgramError;
use crate::events::{Event, EventLog, WithdrawEvent};
use crate::fees::{compute_share, share_of};
use crate::state::{BondingCurve, CurveAccount, Escrow};

verus! {

/// Currency that a withdrawal leaves in custody on top of the reserved
/// minimum.
pub const SAFETY_MARGIN: u64 = 10_000;

/// The currency that goes to the caller of a withdrawal: what the custody
/// holds, less the reserved minimum, the safety margin and the two fixed
/// shares; nothing where that is not positive.
pub open spec fn withdrawable_sol(
    balance: u64,
    minimum_balance: u64,
    first_buyer_share: u64,
    protocol_share: u64,
) -> u64 {
    let left = balance - minimum_balance - SAFETY_MARGIN - first_buyer_share - protocol_share;
    if left > 0 {
        left as u64
    } else {
        0
    }
}

/// What `withdraw` does to `pre`, or why it refuses.
///
/// The checks are made in this order, and the first that fails decides the
/// error: the caller is the withdraw authority; the configuration has been
/// initialized; the fee recipient named is the configured one; the
/// creator's share of the tokens can be computed;
/// there is currency for the caller (see [`withdrawable_sol`]); the custody
/// has the creator's share of the tokens.
///
/// Whether the curve has completed plays no part: what an active curve holds
/// can be withdrawn too, and the curve stays as active or as complete as it
/// was. All tokens leave the custody: the creator's share to the creator,
/// the rest to the caller. The reserved minimum and the safety margin stay.
pub open spec fn withdraw_outcome(pre: Withdraw, minimum_balance: u64, timestamp: i64) -> Result<
    Outcome<Withdraw>,
    ProgramError,
> {
    let pool = pre.bonding_curve;
    let curve = pool.state;
    let first_buyer_share = pre.global.sol_share_first_buyer_after_raydium;
    let protocol_share = pre.global.sol_share_instapump_after_raydium;
    let creator_share = share_of(pool.escrow.tokens, pre.global.token_share_creator_percent);
    let sol_amount = withdrawable_sol(
        pool.escrow.lamports,
        minimum_balance,
        first_buyer_share,
        protocol_share,
    );
    if pre.user != pre.global.withdraw_authority {
        Err(ProgramError::NotAuthorized)
    } else if !pre.global.initialized {
        Err(ProgramError::NotInitialized)
    } else if pre.fee_recipient != pre.global.fee_recipient {
        Err(ProgramError::InvalidFeeRecipient)
    } else if creator_share is Err {
        Err(ProgramError::ArithmeticOverflow)
    } else if sol_amount == 0 || creator_share->Ok_0 > pool.escrow.tokens {
        Err(ProgramError::InsufficientFunds)
    } else {
        let token_amount = (pool.escrow.tokens - creator_share->Ok_0) as u64;
        Ok(
            Outcome {
                accounts: Withdraw {
                    bonding_curve: CurveAccount {
                        key: pool.key,
                        state: BondingCurve {
                            real_sol_reserves: 0,
                            real_token_reserves: 0,
                            ..curve
                        },
                        escrow: Escrow {
                            lamports: (pool.escrow.lamports - first_buyer_share - protocol_share
                                - sol_amount) as u64,
                            tokens: 0,
                        },
                    },
                    ..pre
                },
                actions: seq![
                    Action::TransferTokens {
                        from: pool.key,
                        to: curve.creator_address,
                        amount: creator_share->Ok_0,
                    },
                    Action::TransferTokens { from: pool.key, to: pre.user, amount: token_amount },
                    Action::TransferSol {
                        from: pool.key,
                        to: curve.first_buyer_address,
                        lamports: first_buyer_share,
                    },
                    Action::TransferSol {
                        from: pool.key,
                        to: pre.fee_recipient,
                        lamports: protocol_share,
                    },
                    Action::TransferSol { from: pool.key, to: pre.user, lamports: sol_amount },
                ],
                events: seq![
                    Event::Withdraw(
                        WithdrawEvent { mint: curve.mint, sol_amount, token_amount, timestamp },
                    ),
                ],
            },
        )
    }
}

/// Withdraws what the curve holds, at the time `timestamp`, leaving
/// `minimum_balance` and the safety margin in custody.
///
/// Where [`withdraw_outcome`] accepts, the records are changed as it says,
/// its event is added to `log`, and the movements of funds that the ledger
/// has to carry out are returned. Where it refuses, its error is returned
/// and neither the records nor `log` change.
pub fn withdraw(accounts: &mut Withdraw, log: &mut EventLog, minimum_balance: u64, timestamp: i64) -> (result:
    Result<Vec<Action>, ProgramError>)
    ensures
        match withdraw_outcome(*old(accounts), minimum_balance, timestamp) {
            Ok(outcome) => result is Ok && result->Ok_0@ == outcome.actions && *final(accounts)
                == outcome.accounts && final(log)@ == old(log)@ + outcome.events,
            Err(e) => result is Err && result->Err_0 == e && *final(accounts) == *old(accounts)
                && final(log)@ == old(log)@,
        },
{
    let pool = accounts.bonding_curve;
    let curve = pool.state;
    if !(accounts.user == accounts.global.withdraw_authority) {
        return Err(ProgramError::NotAuthorized);
    }
    if !accounts.global.initialized {
        return Err(ProgramError::NotInitialized);
    }
    if !(accounts.fee_recipient == accounts.global.fee_recipient) {
        return Err(ProgramError::InvalidFeeRecipient);
    }
    let first_buyer_share = accounts.global.sol_share_first_buyer_after_raydium;
    let protocol_share = accounts.global.sol_share_instapump_after_raydium;

    let current_token_balance = pool.escrow.tokens;
    let creator_token_share = match compute_share(
        current_token_balance,
        accounts.global.token_share_creator_percent,
    ) {
        Ok(share) => share,
        Err(e) => {
            return Err(e);
        },
    };
    let token_amount_admin_withdraw = current_token_balance.saturating_sub(creator_token_share);

    let current_sol_balance = pool.escrow.lamports;
    let sol_amount = current_sol_balance.saturating_sub(minimum_balance).saturating_sub(
        SAFETY_MARGIN,
    );
    let sol_amount_admin_withdraw = sol_amount.saturating_sub(first_buyer_share).saturating_sub(
        protocol_share,
    );
    if sol_amount_admin_withdraw == 0 {
        return Err(ProgramError::InsufficientFunds);
    }
    let mut escrow = pool.escrow;
    match escrow.debit_tokens(creator_token_share) {
        Ok(()) => {},
        Err(e) => {
            return Err(e);
        },
    }
    match escrow.debit_tokens(token_amount_admin_withdraw) {
        Ok(()) => {},
        Err(e) => {
            return Err(e);
        },
    }
    match escrow.debit_sol(first_buyer_share) {
        Ok(()) => {},
        Err(e) => {
            return Err(e);
        },
    }
    match escrow.debit_sol(protocol_share) {
        Ok(()) => {},
        Err(e) => {
            return Err(e);
        },
    }
    match escrow.debit_sol(sol_amount_admin_withdraw) {
        Ok(()) => {},
        Err(e) => {
            return Err(e);
        },
    }

    accounts.bonding_curve.state = BondingCurve {
        mint: curve.mint,
        virtual_token_reserves: curve.virtual_token_reserves,
        virtual_sol_reserves: curve.virtual_sol_reserves,
        real_token_reserves: 0,
        real_sol_reserves: 0,
        token_total_supply: curve.token_total_supply,
        complete: curve.complete,
        creator_address: curve.creator_address,
        first_buyer_address: curve.first_buyer_address,
    };
    accounts.bonding_curve.escrow = escrow;

    let mut actions: Vec<Action> = Vec::new();
    actions.push(
        Action::TransferTokens {
            from: pool.key,
            to: curve.creator_address,
            amount: creator_token_share,
        },
    );
    actions.push(
        Action::TransferTokens {
            from: pool.key,
            to: accounts.user,
            amount: token_amount_admin_withdraw,
        },
    );
    actions.push(
        Action::TransferSol {
            from: pool.key,
            to: curve.first_buyer_address,
            lamports: first_buyer_share,
        },
    );
    actions.push(
        Action::TransferSol { from: pool.key, to: accounts.fee_recipient, lamports: protocol_share },
    );
    actions.push(
        Action::TransferSol {
            from: pool.key,
            to: accounts.user,
            lamports: sol_amount_admin_withdraw,
        },
    );

    log.append(
        Event::Withdraw(
            WithdrawEvent {
                mint: curve.mint,
                sol_amount: sol_amount_admin_withdraw,
                token_amount: token_amount_admin_withdraw,
                timestamp,
            },
        ),
    );
    Ok(actions)
}

} // verus!
