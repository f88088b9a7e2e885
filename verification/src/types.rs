use vstd::prelude::*;

use crate::timelock::Timelock;

verus! {

/// Identifies one escrow. Ids are sequence numbers handed out by the store at
/// creation, so every id names exactly one record for as long as the store
/// lives, and no two creations share an id.
#[derive(Clone, Copy, PartialEq, Eq, Structural, Debug, Hash)]
pub struct EscrowId {
    pub index: u64,
}

/// The immutable part of an escrow, fixed at creation and never changed:
/// the two parties, the asset ledger the amount lives on, the amount itself,
/// the hash commitment the taker must open, and the claim window.
/// Identities and the asset are opaque handles, used only for equality and
/// as transfer parties.
#[derive(Clone, Copy, PartialEq, Eq, Debug)]
pub struct Immutables {
    pub maker: u64,
    pub taker: u64,
    pub token: u64,
    pub amount: i128,
    pub hashlock: [u8; 32],
    pub timelock_start: u64,
    pub timelock_end: u64,
}

impl Immutables {
    /// A record is valid when the locked amount is strictly positive and the
    /// window bounds are ordered. Creation refuses anything else.
    pub open spec fn valid(self) -> bool {
        self.amount > 0 && self.timelock_start <= self.timelock_end
    }

    /// The claim window of this escrow.
    pub open spec fn spec_window(self) -> Timelock {
        Timelock { start: self.timelock_start, end: self.timelock_end }
    }

    pub fn window(&self) -> (lock: Timelock)
        ensures
            lock == self.spec_window(),
    {
        Timelock::new(self.timelock_start, self.timelock_end)
    }
}

/// The lifecycle state of an escrow. `Withdrawn` and `Cancelled` are
/// terminal: no operation ever leaves them.
#[derive(Clone, Copy, PartialEq, Eq, Structural, Debug)]
pub enum EscrowState {
    Active,
    Withdrawn,
    Cancelled,
}

/// The transitions the state machine may make in one step: stay put, or move
/// from `Active` into one of the two terminal states.
pub open spec fn status_transition_allowed(before: EscrowState, after: EscrowState) -> bool {
    before == after || (before == EscrowState::Active && (after == EscrowState::Withdrawn
        || after == EscrowState::Cancelled))
}

/// Terminal states are permanent: an allowed transition out of a state other
/// than `Active` never changes it.
pub proof fn lemma_terminal_state_permanent(before: EscrowState, after: EscrowState)
    requires
        status_transition_allowed(before, after),
        before != EscrowState::Active,
    ensures
        after == before,
{
}

/// Why an operation was refused. Each failure leaves the escrow, its event
/// log and the asset ledger exactly as they were.
#[derive(Clone, Copy, PartialEq, Eq, Structural, Debug)]
pub enum Error {
    /// No escrow exists under the given id.
    NotFound,
    /// The escrow exists but is no longer `Active`.
    InvalidState,
    /// Withdrawal outside the claim window, or cancellation before it closed.
    WindowViolation,
    /// The revealed secret does not open the stored commitment.
    InvalidSecret,
    /// The caller is not the principal the operation demands.
    Unauthorized,
    /// A non-positive amount, or window bounds out of order.
    InvalidParameters,
    /// The asset ledger refused to move the funds.
    TransferFailed,
}

/// A swap order as exchanged between parties before an escrow is opened:
/// what the maker gives and what the maker asks, with a salt to make the
/// order unique. The escrow core reads none of it; it is carried through.
#[derive(Clone, Copy, PartialEq, Eq, Structural, Debug)]
pub struct Order {
    pub salt: u64,
    pub maker: u64,
    pub receiver: u64,
    pub maker_asset: u64,
    pub taker_asset: u64,
    pub making_amount: i128,
    pub taking_amount: i128,
}

} // verus!
