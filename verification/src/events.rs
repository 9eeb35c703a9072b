//! The audit trail: one entry for each change of state.

use vstd::prelude::*;

use crate::pubkey::Pubkey;

verus! {

/// An asset was issued and its curve opened.
#[derive(Clone, Debug, PartialEq, Eq)]
pub struct CreateEvent {
    /// The asset's name.
    pub name: String,
    /// The asset's ticker symbol.
    pub symbol: String,
    /// Where the asset's descriptive data is published.
    pub uri: String,
    /// The external reference that the asset was issued for.
    pub post_id: String,
    /// The asset.
    pub mint: Pubkey,
    /// The address of the asset's curve.
    pub bonding_curve: Pubkey,
    /// The creator.
    pub user: Pubkey,
    /// Whether the creator asked for a direct launch.
    pub direct_launch: bool,
}

/// Tokens were bought from a curve or sold to it.
#[derive(Clone, Copy, Debug, PartialEq, Eq)]
pub struct TradeEvent {
    /// The asset.
    pub mint: Pubkey,
    /// The currency that the trade cost or paid, fees not counted.
    pub sol_amount: u64,
    /// The tokens traded.
    pub token_amount: u64,
    /// Whether the tokens were bought from the curve.
    pub is_buy: bool,
    /// The trader.
    pub user: Pubkey,
    /// When the trade was made.
    pub timestamp: i64,
    /// The curve's virtual currency reserve after the trade.
    pub virtual_sol_reserves: u64,
    /// The curve's virtual token reserve after the trade.
    pub virtual_token_reserves: u64,
}

/// A curve sold its last real token.
#[derive(Clone, Copy, Debug, PartialEq, Eq)]
pub struct CompleteEvent {
    /// The asset.
    pub mint: Pubkey,
    /// The address of the asset's curve.
    pub bonding_curve: Pubkey,
    /// When the curve completed.
    pub timestamp: i64,
}

/// What a curve held was withdrawn.
#[derive(Clone, Copy, Debug, PartialEq, Eq)]
pub struct WithdrawEvent {
    /// The asset.
    pub mint: Pubkey,
    /// The currency that went to the caller.
    pub sol_amount: u64,
    /// The tokens that went to the caller.
    pub token_amount: u64,
    /// When the withdrawal was made.
    pub timestamp: i64,
}

/// The parameters were changed. The event carries the new value of each
/// parameter that it names.
#[derive(Clone, Copy, Debug, PartialEq, Eq)]
pub struct SetParamsEvent {
    pub withdraw_authority: Pubkey,
    pub fee_recipient: Pubkey,
    pub initial_virtual_token_reserves: u64,
    pub initial_virtual_sol_reserves: u64,
    pub initial_real_token_reserves: u64,
    pub token_total_supply: u64,
    pub fee_basis_points: u16,
    pub mint_fee_sol: u64,
}

/// One entry of the audit trail.
#[derive(Clone, Debug, PartialEq, Eq)]
pub enum Event {
    Create(CreateEvent),
    Trade(TradeEvent),
    Complete(CompleteEvent),
    Withdraw(WithdrawEvent),
    SetParams(SetParamsEvent),
}

/// The audit trail. Entries are added at its end and never changed or
/// removed: every operation leaves what was there before as a prefix of
/// what is there after.
#[derive(Clone, Debug, PartialEq, Eq)]
pub struct EventLog {
    entries: Vec<Event>,
}

impl View for EventLog {
    type V = Seq<Event>;

    closed spec fn view(&self) -> Seq<Event> {
        self.entries@
    }
}

impl EventLog {
    /// The empty trail.
    pub fn new() -> (log: EventLog)
        ensures
            log@ == Seq::<Event>::empty(),
    {
        EventLog { entries: Vec::new() }
    }

    /// How many entries the trail holds.
    pub fn len(&self) -> (n: usize)
        ensures
            n == self@.len(),
    {
        self.entries.len()
    }

    /// Whether the trail holds no entry.
    pub fn is_empty(&self) -> (empty: bool)
        ensures
            empty == (self@.len() == 0),
    {
        self.entries.len() == 0
    }

    /// The entry at `index`, counted from the oldest, if there is one.
    pub fn get(&self, index: usize) -> (entry: Option<&Event>)
        ensures
            index < self@.len() ==> entry == Some(&self@[index as int]),
            index >= self@.len() ==> entry is None,
    {
        if index < self.entries.len() {
            Some(&self.entries[index])
        } else {
            None
        }
    }

    /// The newest entry, if there is one.
    pub fn last(&self) -> (entry: Option<&Event>)
        ensures
            self@.len() > 0 ==> entry == Some(&self@.last()),
            self@.len() == 0 ==> entry is None,
    {
        let n = self.entries.len();
        if n > 0 {
            Some(&self.entries[n - 1])
        } else {
            None
        }
    }

    /// The entries, oldest first.
    pub fn entries(&self) -> (entries: &Vec<Event>)
        ensures
            entries@ == self@,
    {
        &self.entries
    }

    /// Adds `event` at the end of the trail.
    pub fn append(&mut self, event: Event)
        ensures
            final(self)@ == old(self)@.push(event),
    {
        self.entries.push(event);
    }
}

} // verus!
