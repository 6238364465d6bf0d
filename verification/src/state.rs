use vstd::prelude::*;

use crate::address::Address;

verus! {

/// The stage a deal is in.
#[derive(Clone, Copy, Debug, PartialEq, Eq, Structural)]
pub enum EscrowStatus {
    /// The deal exists; the vault is still unfunded.
    Created,
    /// The sender has deposited the amount into the vault.
    Funded,
    /// The amount went to the receiver; the deal is over.
    Released,
    /// The tokens went back to the sender; the deal is over.
    Cancelled,
}

impl EscrowStatus {
    /// A deal in this status is over: no instruction accepts it any more.
    pub open spec fn is_terminal(self) -> bool {
        self is Released || self is Cancelled
    }
}

/// The stored state of one deal.
#[derive(Clone, Copy, Debug)]
pub struct EscrowState {
    /// The wallet that created and funds the deal.
    pub sender: Address,
    /// The wallet that receives the amount on release.
    pub receiver: Address,
    /// The Token-2022 mint of the escrowed tokens.
    pub mint: Address,
    /// The amount the sender locks; always positive.
    pub amount: u64,
    /// The sender's identifier of the deal.
    pub deal_id: u64,
    /// The bump seed of the deal's state address.
    pub bump: u8,
    /// The deal's stage.
    pub status: EscrowStatus,
}

/// A permanent mark of a deal id: it survives the deal's closure, so that a
/// sender can never reuse an id, and it keeps the deal's final status.
#[derive(Clone, Copy, Debug)]
pub struct DealReceipt {
    pub status: EscrowStatus,
}

} // verus!
