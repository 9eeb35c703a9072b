//! What an operation asks the ledger to carry out.

use vstd::prelude::*;

use crate::pubkey::Pubkey;

verus! {

/// One movement of funds, or one request to the asset registry, that an
/// accepted operation asks for.
///
/// An operation that is accepted has already booked its own side of each
/// movement in the curve's custody. The ledger carries the list out in
/// order and as a whole: if one entry cannot be carried out, the operation
/// has not happened. Token movements are in the asset of the curve that the
/// operation was about.
#[derive(Clone, Debug, PartialEq, Eq)]
pub enum Action {
    /// Move `lamports` of currency from `from` to `to`.
    TransferSol { from: Pubkey, to: Pubkey, lamports: u64 },
    /// Move `amount` tokens from what `from` holds to what `to` holds.
    TransferTokens { from: Pubkey, to: Pubkey, amount: u64 },
    /// Issue `amount` new tokens to `to`.
    MintTokens { to: Pubkey, amount: u64 },
    /// Publish the asset's descriptive data.
    PublishMetadata { name: String, symbol: String, uri: String },
    /// Close the asset to further issuance, for good.
    DisableMinting,
}

} // verus!
