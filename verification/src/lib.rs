//! A bonding-curve market maker.
//!
//! Anyone can issue an asset and have it traded against a pool of its own,
//! priced by a constant product of two virtual reserves, until a purchase
//! takes the last token that the pool really holds. From then on the curve
//! is complete and trading on it is closed.
//!
//! The library decides; it moves no funds itself. Each operation takes the
//! records it works on as plain values, changes them in place where it
//! accepts, adds its events to an [`EventLog`], and returns the list of
//! [`Action`]s that the ledger hosting the market has to carry out, all or
//! none. Where it refuses, it returns a [`ProgramError`] and changes nothing.
//! What each operation does is stated in its contract, for the larger ones
//! by a specification function beside it (`buy_outcome` for `buy`, and so
//! on), and what holds over the whole life of a curve is proved in [`laws`].

pub mod accounts;
pub mod actions;
pub mod admin;
pub mod create;
pub mod error;
pub mod events;
pub mod fees;
pub mod laws;
pub mod pricing;
pub mod pubkey;
pub mod state;
pub mod trade;
pub mod withdraw;

pub use accounts::{Buy, Create, Initialize, Sell, SetParams, Withdraw};
pub use actions::Action;
pub use admin::{initialize, set_params};
pub use create::{create, CURVE_TOKEN_ALLOCATION};
pub use error::{ProgramError, ERROR_CODE_OFFSET};
pub use events::{
    CompleteEvent, CreateEvent, Event, EventLog, SetParamsEvent, TradeEvent, WithdrawEvent,
};
pub use fees::{compute_share, BASIS_POINTS};
pub use pricing::{
    calculate_price_and_sol, calculate_price_and_sol_sell_operation, PRICE_PRECISION,
    SCALING_FACTOR,
};
pub use pubkey::Pubkey;
pub use state::{BondingCurve, CurveAccount, Escrow, Global};
pub use trade::{buy, sell};
pub use withdraw::{withdraw, SAFETY_MARGIN};
