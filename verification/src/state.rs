//! The durable records: the configuration, the curve ledger and its custody.

use vstd::prelude::*;

use crate::error::ProgramError;
use crate::pubkey::Pubkey;

verus! {

/// The protocol's parameters: one record for the whole market.
///
/// It is created blank, claimed once by [`crate::admin::initialize`], and
/// from then on changed only by [`crate::admin::set_params`], which only the
/// authority may call. Every other operation only reads it.
#[derive(Clone, Copy, Debug, PartialEq, Eq)]
pub struct Global {
    /// Whether the record has been claimed.
    pub initialized: bool,
    /// Who may change the parameters.
    pub authority: Pubkey,
    /// Who may withdraw what a curve holds.
    pub withdraw_authority: Pubkey,
    /// Who receives the platform's fees.
    pub fee_recipient: Pubkey,
    /// Virtual token reserves that every new curve starts with.
    pub initial_virtual_token_reserves: u64,
    /// Virtual currency reserves that every new curve starts with.
    pub initial_virtual_sol_reserves: u64,
    /// Real token reserves that every new curve starts with.
    pub initial_real_token_reserves: u64,
    /// Total supply recorded on every new curve.
    pub token_total_supply: u64,
    /// The platform's fee on a trade, in basis points.
    pub fee_basis_points: u16,
    /// The flat fee for issuing an asset.
    pub mint_fee_sol: u64,
    /// The creator's fee on a trade, in basis points.
    pub trading_fee_creator_percent_sol: u16,
    /// The creator's share of the tokens at withdrawal, in basis points.
    pub token_share_creator_percent: u16,
    /// The flat amount set aside for the first buyer at withdrawal.
    pub sol_share_first_buyer_after_raydium: u64,
    /// The flat amount set aside for the platform at withdrawal.
    pub sol_share_instapump_after_raydium: u64,
}

impl Global {
    /// Bytes reserved for a stored record.
    pub const LEN: usize = 1 + 32 + 32 + 32 + 8 + 8 + 8 + 8 + 8 + 8 + 8 + 8 + 8 + 8;

    /// The blank record: unclaimed, with null identities and zero amounts.
    pub open spec fn blank() -> Global {
        Global {
            initialized: false,
            authority: Pubkey::null(),
            withdraw_authority: Pubkey::null(),
            fee_recipient: Pubkey::null(),
            initial_virtual_token_reserves: 0,
            initial_virtual_sol_reserves: 0,
            initial_real_token_reserves: 0,
            token_total_supply: 0,
            fee_basis_points: 0,
            mint_fee_sol: 0,
            trading_fee_creator_percent_sol: 0,
            token_share_creator_percent: 0,
            sol_share_first_buyer_after_raydium: 0,
            sol_share_instapump_after_raydium: 0,
        }
    }
}

impl Default for Global {
    fn default() -> (global: Global)
        ensures
            global == Global::blank(),
    {
        Global {
            initialized: false,
            authority: Pubkey::default(),
            withdraw_authority: Pubkey::default(),
            fee_recipient: Pubkey::default(),
            initial_virtual_token_reserves: 0,
            initial_virtual_sol_reserves: 0,
            initial_real_token_reserves: 0,
            token_total_supply: 0,
            fee_basis_points: 0,
            mint_fee_sol: 0,
            trading_fee_creator_percent_sol: 0,
            token_share_creator_percent: 0,
            sol_share_first_buyer_after_raydium: 0,
            sol_share_instapump_after_raydium: 0,
        }
    }
}

/// The ledger of one issued asset: its reserves and where it is in its life.
///
/// The virtual reserves serve pricing only. The real reserves count what
/// the curve has in custody to pay out. A curve is *active* until a
/// purchase takes its last real token; then it is *complete*, for good.
#[derive(Clone, Copy, Debug, PartialEq, Eq)]
pub struct BondingCurve {
    /// The asset that this curve trades.
    pub mint: Pubkey,
    /// Token side of the pricing product.
    pub virtual_token_reserves: u64,
    /// Currency side of the pricing product.
    pub virtual_sol_reserves: u64,
    /// Tokens still for sale.
    pub real_token_reserves: u64,
    /// Currency taken in by purchases and not yet paid out.
    pub real_sol_reserves: u64,
    /// Total supply of the asset, fixed at creation.
    pub token_total_supply: u64,
    /// Whether the curve has completed.
    pub complete: bool,
    /// Who issued the asset.
    pub creator_address: Pubkey,
    /// Who made the first purchase; the null identity until then.
    pub first_buyer_address: Pubkey,
}

impl BondingCurve {
    /// Bytes reserved for a stored record.
    pub const LEN: usize = 32 + 8 + 8 + 8 + 8 + 8 + 1 + 32 + 32;

    /// The blank record.
    pub open spec fn blank() -> BondingCurve {
        BondingCurve {
            mint: Pubkey::null(),
            virtual_token_reserves: 0,
            virtual_sol_reserves: 0,
            real_token_reserves: 0,
            real_sol_reserves: 0,
            token_total_supply: 0,
            complete: false,
            creator_address: Pubkey::null(),
            first_buyer_address: Pubkey::null(),
        }
    }

    /// A complete curve has no real tokens left.
    pub open spec fn wf(self) -> bool {
        self.complete ==> self.real_token_reserves == 0
    }

    /// The pricing product of the two virtual reserves.
    pub open spec fn k(self) -> nat {
        (self.virtual_token_reserves * self.virtual_sol_reserves) as nat
    }
}

impl Default for BondingCurve {
    fn default() -> (curve: BondingCurve)
        ensures
            curve == BondingCurve::blank(),
    {
        BondingCurve {
            mint: Pubkey::default(),
            virtual_token_reserves: 0,
            virtual_sol_reserves: 0,
            real_token_reserves: 0,
            real_sol_reserves: 0,
            token_total_supply: 0,
            complete: false,
            creator_address: Pubkey::default(),
            first_buyer_address: Pubkey::default(),
        }
    }
}

/// What one curve holds in custody: currency and tokens.
///
/// Nothing enters or leaves but through the four operations below, and each
/// of them either moves the exact amount or refuses and moves nothing.
#[derive(Clone, Copy, Debug, PartialEq, Eq)]
pub struct Escrow {
    /// Currency held, in its smallest unit.
    pub lamports: u64,
    /// Tokens held, in their smallest unit.
    pub tokens: u64,
}

impl Escrow {
    /// Takes `amount` of currency in.
    pub fn credit_sol(&mut self, amount: u64) -> (result: Result<(), ProgramError>)
        ensures
            result is Ok <==> old(self).lamports + amount <= u64::MAX,
            result is Ok ==> *final(self) == (Escrow {
                lamports: (old(self).lamports + amount) as u64,
                ..*old(self)
            }),
            result is Err ==> result == Err::<(), ProgramError>(ProgramError::ArithmeticOverflow)
                && *final(self) == *old(self),
    {
        match self.lamports.checked_add(amount) {
            Some(lamports) => {
                self.lamports = lamports;
                Ok(())
            },
            None => Err(ProgramError::ArithmeticOverflow),
        }
    }

    /// Pays `amount` of currency out.
    pub fn debit_sol(&mut self, amount: u64) -> (result: Result<(), ProgramError>)
        ensures
            result is Ok <==> amount <= old(self).lamports,
            result is Ok ==> *final(self) == (Escrow {
                lamports: (old(self).lamports - amount) as u64,
                ..*old(self)
            }),
            result is Err ==> result == Err::<(), ProgramError>(ProgramError::InsufficientFunds)
                && *final(self) == *old(self),
    {
        match self.lamports.checked_sub(amount) {
            Some(lamports) => {
                self.lamports = lamports;
                Ok(())
            },
            None => Err(ProgramError::InsufficientFunds),
        }
    }

    /// Takes `amount` of tokens in.
    pub fn credit_tokens(&mut self, amount: u64) -> (result: Result<(), ProgramError>)
        ensures
            result is Ok <==> old(self).tokens + amount <= u64::MAX,
            result is Ok ==> *final(self) == (Escrow {
                tokens: (old(self).tokens + amount) as u64,
                ..*old(self)
            }),
            result is Err ==> result == Err::<(), ProgramError>(ProgramError::ArithmeticOverflow)
                && *final(self) == *old(self),
    {
        match self.tokens.checked_add(amount) {
            Some(tokens) => {
                self.tokens = tokens;
                Ok(())
            },
            None => Err(ProgramError::ArithmeticOverflow),
        }
    }

    /// Pays `amount` of tokens out.
    pub fn debit_tokens(&mut self, amount: u64) -> (result: Result<(), ProgramError>)
        ensures
            result is Ok <==> amount <= old(self).tokens,
            result is Ok ==> *final(self) == (Escrow {
                tokens: (old(self).tokens - amount) as u64,
                ..*old(self)
            }),
            result is Err ==> result == Err::<(), ProgramError>(ProgramError::InsufficientFunds)
                && *final(self) == *old(self),
    {
        match self.tokens.checked_sub(amount) {
            Some(tokens) => {
                self.tokens = tokens;
                Ok(())
            },
            None => Err(ProgramError::InsufficientFunds),
        }
    }
}

/// A curve as the ledger keeps it: its address, its record and its custody.
#[derive(Clone, Copy, Debug, PartialEq, Eq)]
pub struct CurveAccount {
    /// Where the record lives. The custody is held under the same address.
    pub key: Pubkey,
    /// The record.
    pub state: BondingCurve,
    /// What the curve holds.
    pub escrow: Escrow,
}

} // verus!
