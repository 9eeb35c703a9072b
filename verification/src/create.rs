//! Issuing an asset and opening its curve.

use vstd::prelude::*;

use crate::accounts::{Create, Outcome};
use crate::actions::Action;
use crate::error::ProgramError;
use crate::events::{CreateEvent, Event, EventLog};
use crate::pubkey::Pubkey;
use crate::state::{BondingCurve, CurveAccount, Escrow, Global};

verus! {

/// The tokens issued into a new curve's custody: one thousand million
/// tokens of a million units each.
pub const CURVE_TOKEN_ALLOCATION: u64 = 1_000_000_000_000_000;

/// The record of a curve that has just been opened for `mint` by `creator`:
/// seeded from the configuration, with no currency taken in, active, and
/// with no first buyer yet.
pub open spec fn fresh_curve(global: Global, mint: Pubkey, creator: Pubkey) -> BondingCurve {
    BondingCurve {
        mint,
        virtual_token_reserves: global.initial_virtual_token_reserves,
        virtual_sol_reserves: global.initial_virtual_sol_reserves,
        real_token_reserves: global.initial_real_token_reserves,
        real_sol_reserves: 0,
        token_total_supply: global.token_total_supply,
        complete: false,
        creator_address: creator,
        first_buyer_address: Pubkey::null(),
    }
}

/// What `create` does to `pre`, or why it refuses.
///
/// It is refused where the configuration has not been initialized; failing
/// that, where the fee recipient named is not the configured one; and
/// failing that, where the custody cannot take the tokens issued.
/// Whatever the curve's record held before is overwritten.
pub open spec fn create_outcome(
    pre: Create,
    name: String,
    symbol: String,
    uri: String,
    post_id: String,
    direct_launch: bool,
) -> Result<Outcome<Create>, ProgramError> {
    let pool = pre.bonding_curve;
    if !pre.global.initialized {
        Err(ProgramError::NotInitialized)
    } else if pre.fee_recipient != pre.global.fee_recipient {
        Err(ProgramError::InvalidFeeRecipient)
    } else if pool.escrow.tokens + CURVE_TOKEN_ALLOCATION > u64::MAX {
        Err(ProgramError::ArithmeticOverflow)
    } else {
        Ok(
            Outcome {
                accounts: Create {
                    bonding_curve: CurveAccount {
                        key: pool.key,
                        state: fresh_curve(pre.global, pre.mint, pre.user),
                        escrow: Escrow {
                            lamports: pool.escrow.lamports,
                            tokens: (pool.escrow.tokens + CURVE_TOKEN_ALLOCATION) as u64,
                        },
                    },
                    ..pre
                },
                actions: seq![
                    Action::TransferSol {
                        from: pre.user,
                        to: pre.fee_recipient,
                        lamports: pre.global.mint_fee_sol,
                    },
                    Action::MintTokens { to: pool.key, amount: CURVE_TOKEN_ALLOCATION },
                    Action::PublishMetadata { name, symbol, uri },
                    Action::DisableMinting,
                ],
                events: seq![
                    Event::Create(
                        CreateEvent {
                            name,
                            symbol,
                            uri,
                            post_id,
                            mint: pre.mint,
                            bonding_curve: pool.key,
                            user: pre.user,
                            direct_launch,
                        },
                    ),
                ],
            },
        )
    }
}

/// Issues the asset `accounts.mint` and opens its curve, with the caller as
/// creator.
///
/// Where [`create_outcome`] accepts, the curve's record and custody are
/// changed as it says, its event is added to `log`, and what the ledger and
/// the asset registry have to carry out is returned: the issuance fee, the
/// issue of the tokens into custody, the publication of `name`, `symbol`
/// and `uri`, and the closing of the asset to further issuance. Where it
/// refuses, its error is returned and neither the records nor `log` change.
pub fn create(
    accounts: &mut Create,
    log: &mut EventLog,
    name: String,
    symbol: String,
    uri: String,
    post_id: String,
    direct_launch: bool,
) -> (result: Result<Vec<Action>, ProgramError>)
    ensures
        match create_outcome(*old(accounts), name, symbol, uri, post_id, direct_launch) {
            Ok(outcome) => result is Ok && result->Ok_0@ == outcome.actions && *final(accounts)
                == outcome.accounts && final(log)@ == old(log)@ + outcome.events,
            Err(e) => result is Err && result->Err_0 == e && *final(accounts) == *old(accounts)
                && final(log)@ == old(log)@,
        },
{
    let pool = accounts.bonding_curve;
    if !accounts.global.initialized {
        return Err(ProgramError::NotInitialized);
    }
    if !(accounts.fee_recipient == accounts.global.fee_recipient) {
        return Err(ProgramError::InvalidFeeRecipient);
    }
    let mut escrow = pool.escrow;
    match escrow.credit_tokens(CURVE_TOKEN_ALLOCATION) {
        Ok(()) => {},
        Err(e) => {
            return Err(e);
        },
    }

    accounts.bonding_curve.state = BondingCurve {
        mint: accounts.mint,
        virtual_token_reserves: accounts.global.initial_virtual_token_reserves,
        virtual_sol_reserves: accounts.global.initial_virtual_sol_reserves,
        real_token_reserves: accounts.global.initial_real_token_reserves,
        real_sol_reserves: 0,
        token_total_supply: accounts.global.token_total_supply,
        complete: false,
        creator_address: accounts.user,
        first_buyer_address: Pubkey::default(),
    };
    accounts.bonding_curve.escrow = escrow;

    let mut actions: Vec<Action> = Vec::new();
    actions.push(
        Action::TransferSol {
            from: accounts.user,
            to: accounts.fee_recipient,
            lamports: accounts.global.mint_fee_sol,
        },
    );
    actions.push(Action::MintTokens { to: pool.key, amount: CURVE_TOKEN_ALLOCATION });
    actions.push(
        Action::PublishMetadata { name: name.clone(), symbol: symbol.clone(), uri: uri.clone() },
    );
    actions.push(Action::DisableMinting);

    log.append(
        Event::Create(
            CreateEvent {
                name,
                symbol,
                uri,
                post_id,
                mint: accounts.mint,
                bonding_curve: pool.key,
                user: accounts.user,
                direct_launch,
            },
        ),
    );
    Ok(actions)
}

} // verus!
