//! Claiming the configuration and changing its parameters.

use vstd::prelude::*;

use crate::accounts::{Initialize, SetParams};
use crate::error::ProgramError;
use crate::events::{Event, EventLog, SetParamsEvent};
use crate::pubkey::Pubkey;
use crate::state::Global;

verus! {

/// Claims the configuration for the caller, who becomes its authority.
///
/// This succeeds once. On a configuration that has been claimed it is
/// refused as already initialized, and nothing changes.
pub fn initialize(accounts: &mut Initialize) -> (result: Result<(), ProgramError>)
    ensures
        !old(accounts).global.initialized ==> result is Ok && *final(accounts) == (Initialize {
            global: Global {
                initialized: true,
                authority: old(accounts).user,
                ..old(accounts).global
            },
            user: old(accounts).user,
        }),
        old(accounts).global.initialized ==> result == Err::<(), ProgramError>(
            ProgramError::AlreadyInitialized,
        ) && *final(accounts) == *old(accounts),
{
    if accounts.global.initialized {
        return Err(ProgramError::AlreadyInitialized);
    }
    accounts.global.initialized = true;
    accounts.global.authority = accounts.user;
    Ok(())
}

/// Replaces every parameter of the configuration, and records the change
/// in `log`.
///
/// Only the authority may do this: for any other caller it is refused as
/// not authorized. On a configuration that has not been claimed, which has
/// the null identity for its authority, it is refused as not initialized
/// even for that caller. Where it is refused, neither the configuration nor
/// `log` changes.
pub fn set_params(
    accounts: &mut SetParams,
    log: &mut EventLog,
    authority: Pubkey,
    withdraw_authority: Pubkey,
    fee_recipient: Pubkey,
    initial_virtual_token_reserves: u64,
    initial_virtual_sol_reserves: u64,
    initial_real_token_reserves: u64,
    token_total_supply: u64,
    fee_basis_points: u16,
    mint_fee_sol: u64,
    trading_fee_creator_percent_sol: u16,
    token_share_creator_percent: u16,
    sol_share_first_buyer_after_raydium: u64,
    sol_share_instapump_after_raydium: u64,
) -> (result: Result<(), ProgramError>)
    ensures
        old(accounts).user == old(accounts).global.authority && old(accounts).global.initialized
            ==> result is Ok && *final(accounts) == (SetParams {
            global: Global {
                initialized: true,
                authority,
                withdraw_authority,
                fee_recipient,
                initial_virtual_token_reserves,
                initial_virtual_sol_reserves,
                initial_real_token_reserves,
                token_total_supply,
                fee_basis_points,
                mint_fee_sol,
                trading_fee_creator_percent_sol,
                token_share_creator_percent,
                sol_share_first_buyer_after_raydium,
                sol_share_instapump_after_raydium,
            },
            user: old(accounts).user,
        }) && final(log)@ == old(log)@.push(
            Event::SetParams(
                SetParamsEvent {
                    withdraw_authority,
                    fee_recipient,
                    initial_virtual_token_reserves,
                    initial_virtual_sol_reserves,
                    initial_real_token_reserves,
                    token_total_supply,
                    fee_basis_points,
                    mint_fee_sol,
                },
            ),
        ),
        old(accounts).user != old(accounts).global.authority ==> result == Err::<
            (),
            ProgramError,
        >(ProgramError::NotAuthorized),
        old(accounts).user == old(accounts).global.authority && !old(accounts).global.initialized
            ==> result == Err::<(), ProgramError>(ProgramError::NotInitialized),
        result is Err ==> *final(accounts) == *old(accounts) && final(log)@ == old(log)@,
{
    if !(accounts.user == accounts.global.authority) {
        return Err(ProgramError::NotAuthorized);
    }
    if !accounts.global.initialized {
        return Err(ProgramError::NotInitialized);
    }
    accounts.global.authority = authority;
    accounts.global.fee_recipient = fee_recipient;
    accounts.global.withdraw_authority = withdraw_authority;
    accounts.global.initial_virtual_token_reserves = initial_virtual_token_reserves;
    accounts.global.initial_virtual_sol_reserves = initial_virtual_sol_reserves;
    accounts.global.initial_real_token_reserves = initial_real_token_reserves;
    accounts.global.token_total_supply = token_total_supply;
    accounts.global.fee_basis_points = fee_basis_points;
    accounts.global.mint_fee_sol = mint_fee_sol;
    accounts.global.trading_fee_creator_percent_sol = trading_fee_creator_percent_sol;
    accounts.global.token_share_creator_percent = token_share_creator_percent;
    accounts.global.sol_share_first_buyer_after_raydium = sol_share_first_buyer_after_raydium;
    accounts.global.sol_share_instapump_after_raydium = sol_share_instapump_after_raydium;

    log.append(
        Event::SetParams(
            SetParamsEvent {
                withdraw_authority,
                fee_recipient,
                initial_virtual_token_reserves,
                initial_virtual_sol_reserves,
                initial_real_token_reserves,
                token_total_supply,
                fee_basis_points,
                mint_fee_sol,
            },
        ),
    );
    Ok(())
}

} // verus!
