use vstd::prelude::*;

use crate::types::EscrowId;

verus! {

/// An escrow was opened: the maker locked `amount` of `token` behind the
/// hash commitment and the claim window.
#[derive(PartialEq, Eq, Debug)]
pub struct EscrowCreated {
    pub escrow_id: EscrowId,
    pub maker: u64,
    pub taker: u64,
    pub token: u64,
    pub amount: i128,
}

/// The taker claimed the funds. The secret is published on purpose: revealing
/// it is what lets a counterpart chain watching this log unlock its side.
#[derive(PartialEq, Eq, Debug)]
pub struct EscrowWithdrawn {
    pub escrow_id: EscrowId,
    pub taker: u64,
    pub amount: i128,
    pub secret: Vec<u8>,
}

/// The maker reclaimed the funds after the window closed.
#[derive(PartialEq, Eq, Debug)]
pub struct EscrowCancelled {
    pub escrow_id: EscrowId,
    pub maker: u64,
    pub amount: i128,
}

/// One entry of the outward event log: exactly one is appended per successful
/// state transition, in commit order, and none on a failed operation.
#[derive(PartialEq, Eq, Debug)]
pub enum Event {
    Created(EscrowCreated),
    Withdrawn(EscrowWithdrawn),
    Cancelled(EscrowCancelled),
}

} // verus!
