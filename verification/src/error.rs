//! The ways in which an operation can be refused.

use vstd::prelude::*;

verus! {

/// Why an operation was refused. A refused operation changes nothing.
#[derive(Clone, Copy, Debug, PartialEq, Eq, Structural)]
pub enum ProgramError {
    /// The caller does not hold the role that the operation asks for.
    NotAuthorized,
    /// The configuration has been initialized before.
    AlreadyInitialized,
    /// The fee recipient that was named is not the configured one.
    InvalidFeeRecipient,
    /// A purchase would cost more than the buyer's limit.
    TooMuchSolRequired,
    /// A sale would pay out less than the seller's limit.
    TooLittleSolReceived,
    /// The asset named is not the one the curve was created for.
    MintDoesNotMatchBondingCurve,
    /// The curve has completed, and trading on it is closed for good.
    BondingCurveComplete,
    /// The curve has not completed yet.
    BondingCurveNotComplete,
    /// The configuration has not been initialized.
    NotInitialized,
    /// A balance or a reserve would become negative.
    InsufficientFunds,
    /// A sum, a product or a quotient leaves the 64-bit domain.
    ArithmeticOverflow,
    /// A quote violates a bound given by the caller.
    SlippageExceeded,
    /// A purchase asks for more units than the curve still holds.
    InsufficientTokens,
    /// The external reference has been used for an earlier asset.
    PostIdAlreadyUsed,
}

/// The number from which the codes of [`ProgramError`] are counted.
pub const ERROR_CODE_OFFSET: u32 = 6000;

impl ProgramError {
    /// The position of this kind in the list of kinds, counted from zero.
    pub open spec fn ordinal(self) -> nat {
        match self {
            ProgramError::NotAuthorized => 0,
            ProgramError::AlreadyInitialized => 1,
            ProgramError::InvalidFeeRecipient => 2,
            ProgramError::TooMuchSolRequired => 3,
            ProgramError::TooLittleSolReceived => 4,
            ProgramError::MintDoesNotMatchBondingCurve => 5,
            ProgramError::BondingCurveComplete => 6,
            ProgramError::BondingCurveNotComplete => 7,
            ProgramError::NotInitialized => 8,
            ProgramError::InsufficientFunds => 9,
            ProgramError::ArithmeticOverflow => 10,
            ProgramError::SlippageExceeded => 11,
            ProgramError::InsufficientTokens => 12,
            ProgramError::PostIdAlreadyUsed => 13,
        }
    }

    /// The text that explains this kind to a person.
    pub open spec fn message_text(self) -> Seq<char> {
        match self {
            ProgramError::NotAuthorized => {
                "The given account is not authorized to execute this instruction."@
            },
            ProgramError::AlreadyInitialized => "The program is already initialized."@,
            ProgramError::InvalidFeeRecipient => {
                "The provided fee recipient token account does not match the global fee recipient"@
            },
            ProgramError::TooMuchSolRequired => {
                "slippage: Too much SOL required to buy the given amount of tokens."@
            },
            ProgramError::TooLittleSolReceived => {
                "slippage: Too little SOL received to sell the given amount of tokens."@
            },
            ProgramError::MintDoesNotMatchBondingCurve => {
                "The mint does not match the bonding curve."@
            },
            ProgramError::BondingCurveComplete => {
                "The bonding curve has completed and liquidity migrated to raydium."@
            },
            ProgramError::BondingCurveNotComplete => "The bonding curve has not completed."@,
            ProgramError::NotInitialized => "The program is not initialized."@,
            ProgramError::InsufficientFunds => "The program is facing InsufficientFunds."@,
            ProgramError::ArithmeticOverflow => "The program is facing ArithmeticOverflow."@,
            ProgramError::SlippageExceeded => "The program is facing SlippageExceeded."@,
            ProgramError::InsufficientTokens => "The program is facing InsufficientTokens."@,
            ProgramError::PostIdAlreadyUsed => {
                "This Insta post ID has already been used to create a token."@
            },
        }
    }

    /// The stable number by which a machine tells this kind from the others.
    pub fn code(&self) -> (code: u32)
        ensures
            code == ERROR_CODE_OFFSET + self.ordinal(),
    {
        let ordinal: u32 = match self {
            ProgramError::NotAuthorized => 0,
            ProgramError::AlreadyInitialized => 1,
            ProgramError::InvalidFeeRecipient => 2,
            ProgramError::TooMuchSolRequired => 3,
            ProgramError::TooLittleSolReceived => 4,
            ProgramError::MintDoesNotMatchBondingCurve => 5,
            ProgramError::BondingCurveComplete => 6,
            ProgramError::BondingCurveNotComplete => 7,
            ProgramError::NotInitialized => 8,
            ProgramError::InsufficientFunds => 9,
            ProgramError::ArithmeticOverflow => 10,
            ProgramError::SlippageExceeded => 11,
            ProgramError::InsufficientTokens => 12,
            ProgramError::PostIdAlreadyUsed => 13,
        };
        ERROR_CODE_OFFSET + ordinal
    }

    /// The text that explains this kind to a person.
    pub fn message(&self) -> (text: &'static str)
        ensures
            text@ == self.message_text(),
    {
        match self {
            ProgramError::NotAuthorized => {
                "The given account is not authorized to execute this instruction."
            },
            ProgramError::AlreadyInitialized => "The program is already initialized.",
            ProgramError::InvalidFeeRecipient => {
                "The provided fee recipient token account does not match the global fee recipient"
            },
            ProgramError::TooMuchSolRequired => {
                "slippage: Too much SOL required to buy the given amount of tokens."
            },
            ProgramError::TooLittleSolReceived => {
                "slippage: Too little SOL received to sell the given amount of tokens."
            },
            ProgramError::MintDoesNotMatchBondingCurve => {
                "The mint does not match the bonding curve."
            },
            ProgramError::BondingCurveComplete => {
                "The bonding curve has completed and liquidity migrated to raydium."
            },
            ProgramError::BondingCurveNotComplete => "The bonding curve has not completed.",
            ProgramError::NotInitialized => "The program is not initialized.",
            ProgramError::InsufficientFunds => "The program is facing InsufficientFunds.",
            ProgramError::ArithmeticOverflow => "The program is facing ArithmeticOverflow.",
            ProgramError::SlippageExceeded => "The program is facing SlippageExceeded.",
            ProgramError::InsufficientTokens => "The program is facing InsufficientTokens.",
            ProgramError::PostIdAlreadyUsed => {
                "This Insta post ID has already been used to create a token."
            },
        }
    }
}

} // verus!
