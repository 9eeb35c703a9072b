//! What each operation is handed: the records it reads and changes, and the
//! identities it acts for.
//!
//! The ledger that hosts the market has already established who the caller
//! is and that each record is the one that belongs to the asset named. An
//! operation therefore takes the creator and the first buyer from the curve
//! itself. The fee recipient is named by the caller, and checked.

use vstd::prelude::*;

use crate::actions::Action;
use crate::events::Event;
use crate::pubkey::Pubkey;
use crate::state::{CurveAccount, Global};

verus! {

/// For [`crate::admin::initialize`].
#[derive(Clone, Copy, Debug, PartialEq, Eq)]
pub struct Initialize {
    /// The configuration to claim.
    pub global: Global,
    /// The caller.
    pub user: Pubkey,
}

/// For [`crate::admin::set_params`].
#[derive(Clone, Copy, Debug, PartialEq, Eq)]
pub struct SetParams {
    /// The configuration to change.
    pub global: Global,
    /// The caller.
    pub user: Pubkey,
}

/// For [`crate::create::create`].
#[derive(Clone, Copy, Debug, PartialEq, Eq)]
pub struct Create {
    /// The asset being issued.
    pub mint: Pubkey,
    /// The configuration.
    pub global: Global,
    /// Who the caller says receives the issuance fee.
    pub fee_recipient: Pubkey,
    /// The curve to open: its address, its record, which is overwritten,
    /// and its custody, which receives the tokens issued.
    pub bonding_curve: CurveAccount,
    /// The caller, who becomes the creator.
    pub user: Pubkey,
}

/// For [`crate::trade::buy`].
#[derive(Clone, Copy, Debug, PartialEq, Eq)]
pub struct Buy {
    /// The configuration.
    pub global: Global,
    /// Who the caller says receives the platform's fee.
    pub fee_recipient: Pubkey,
    /// The curve to buy from.
    pub bonding_curve: CurveAccount,
    /// The buyer.
    pub user: Pubkey,
}

/// For [`crate::trade::sell`].
#[derive(Clone, Copy, Debug, PartialEq, Eq)]
pub struct Sell {
    /// The seller.
    pub user: Pubkey,
    /// The configuration.
    pub global: Global,
    /// The curve to sell to.
    pub bonding_curve: CurveAccount,
    /// Who the caller says receives the platform's fee.
    pub fee_recipient: Pubkey,
}

/// For [`crate::withdraw::withdraw`].
#[derive(Clone, Copy, Debug, PartialEq, Eq)]
pub struct Withdraw {
    /// The caller.
    pub user: Pubkey,
    /// The curve to withdraw from.
    pub bonding_curve: CurveAccount,
    /// The configuration.
    pub global: Global,
    /// Who the caller says receives the platform's share.
    pub fee_recipient: Pubkey,
}

/// What an accepted operation leaves behind: the records as they are
/// afterwards, what the ledger is asked to carry out, in order, and what is
/// added to the audit trail, in order.
pub struct Outcome<A> {
    /// The records after the operation.
    pub accounts: A,
    /// What the ledger is asked to carry out.
    pub actions: Seq<Action>,
    /// What is added to the audit trail.
    pub events: Seq<Event>,
}

} // verus!
