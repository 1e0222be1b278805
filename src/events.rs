use vstd::prelude::*;

use crate::state::{Pubkey, Visibility};

verus! {

/// A value transfer the host must carry out.
#[derive(Clone, Copy, Debug, PartialEq, Eq)]
pub struct Transfer {
    pub from: Pubkey,
    pub to: Pubkey,
    pub lamports: u64,
}

/// A tip was accepted.
#[derive(Clone, Debug, PartialEq, Eq)]
pub struct TipSent {
    pub sender: Pubkey,
    pub receiver: Pubkey,
    pub amount: u64,
    pub memo: String,
    pub visibility: Visibility,
}

/// A jar was switched on or off.
#[derive(Clone, Copy, Debug, PartialEq, Eq)]
pub struct TipJarStatusChanged {
    pub tipjar: Pubkey,
    pub is_active: bool,
}

/// A jar's balance stands at or above its goal.
#[derive(Clone, Copy, Debug, PartialEq, Eq)]
pub struct GoalReached {
    pub tipjar: Pubkey,
    pub goal: u64,
    pub total_received: u64,
}

/// A tip to a paused jar was turned back before any value moved.
#[derive(Clone, Copy, Debug, PartialEq, Eq)]
pub struct TipRefunded {
    pub tipjar: Pubkey,
    pub sender: Pubkey,
    pub lamports: u64,
    pub timestamp: u64,
}

/// A summary of a jar.
#[derive(Clone, Copy, Debug, PartialEq, Eq)]
pub struct TipJarStats {
    pub tipjar: Pubkey,
    pub total_tips: u32,
    pub total_received: u64,
    pub is_active: bool,
    pub goal_percentage: u64,
}

/// What a tip request asks of the host.
#[derive(Clone, Copy, Debug, PartialEq, Eq)]
pub enum TipPlan {
    /// The jar is paused: announce the refund; nothing moves, nothing changes.
    Refund(TipRefunded),
    /// Carry out the transfer; once it went through, record the tip.
    Transfer(Transfer),
}

/// The notifications of an accepted tip.
#[derive(Clone, Debug, PartialEq, Eq)]
pub struct TipReceipt {
    pub sent: TipSent,
    /// Present whenever the balance stands at or above the goal.
    pub goal_reached: Option<GoalReached>,
}


/// What closing a jar asks of the host: pay out the balance, if any, then
/// release the record's storage to `release_to`.
#[derive(Clone, Copy, Debug, PartialEq, Eq)]
pub struct CloseOrder {
    pub transfer: Option<Transfer>,
    pub release_to: Pubkey,
}

} // verus!
