//! A hashed-timelock escrow: a maker locks a positive amount of an asset
//! behind a secret's SHA-256 commitment and a time window; the taker may
//! claim the funds only by revealing the secret while the window is open;
//! after it closes, the maker may reclaim them. Every state transition is
//! mutually exclusive and irreversible, and a transition and its asset
//! transfer either both happen or neither does.

pub mod escrow;
pub mod events;
pub mod hashlock;
pub mod timelock;
pub mod token;
pub mod types;

use vstd::prelude::*;

use crate::escrow::{EscrowEntry, EscrowManager};
use crate::events::{Event, EscrowCancelled, EscrowCreated, EscrowWithdrawn};
use crate::hashlock::{spec_matches, verify_hashlock};
use crate::token::Token;
use crate::types::{status_transition_allowed, Error, EscrowId, EscrowState, Immutables};

verus! {

/// The escrow state machine. It owns the escrow store and the outward event
/// log; the asset ledger is handed in by the caller, and funds in flight are
/// held on the `custody` account. The current time is supplied by the caller
/// on each call: the machine is purely reactive, with no clock of its own.
pub struct SwapContract {
    pub custody: u64,
    pub manager: EscrowManager,
    pub events: Vec<Event>,
}

/// One step of the machine never deletes an escrow, never rewrites a record,
/// and moves a status only along an allowed transition: nothing leaves a
/// terminal state.
pub open spec fn spec_step_allowed(pre: SwapContract, post: SwapContract) -> bool {
    forall|id: EscrowId|
        #![trigger post.manager.spec_state(id)]
        match pre.manager.spec_state(id) {
            Some(before) => {
                &&& post.manager.spec_record(id) == pre.manager.spec_record(id)
                &&& match post.manager.spec_state(id) {
                    Some(after) => status_transition_allowed(before, after),
                    None => false,
                }
            },
            None => true,
        }
}

impl SwapContract {
    /// Every record the store holds was admitted by `create_escrow`, so it is
    /// valid: a positive amount and an ordered window.
    pub open spec fn wf(self) -> bool {
        forall|i: int|
            0 <= i < self.manager.entries@.len() ==> (
            #[trigger] self.manager.entries@[i]).record.valid()
    }

    /// What `create_escrow` answers: who may open an escrow, which parameters
    /// are admitted, and that the funding transfer decides the rest.
    pub open spec fn spec_create_result(
        self,
        token: Token,
        caller: u64,
        maker: u64,
        amount: i128,
        timelock_start: u64,
        timelock_end: u64,
    ) -> Result<EscrowId, Error> {
        if caller != maker {
            Err(Error::Unauthorized)
        } else if !(amount > 0 && timelock_start <= timelock_end) {
            Err(Error::InvalidParameters)
        } else if !token.spec_transfer_ok(maker, maker, self.custody, amount) {
            Err(Error::TransferFailed)
        } else {
            Ok(self.manager.spec_fresh_id())
        }
    }

    /// What `withdraw` answers: the escrow must exist, still be active, the
    /// window must be open, the secret must open the commitment, and the
    /// payout transfer decides the rest.
    pub open spec fn spec_withdraw_result(
        self,
        token: Token,
        now: u64,
        escrow_id: EscrowId,
        secret: Seq<u8>,
    ) -> Result<(), Error> {
        match self.manager.spec_record(escrow_id) {
            None => Err(Error::NotFound),
            Some(record) => if self.manager.spec_state(escrow_id) != Some(EscrowState::Active) {
                Err(Error::InvalidState)
            } else if !record.spec_window().spec_is_active(now) {
                Err(Error::WindowViolation)
            } else if !spec_matches(record.hashlock@, secret) {
                Err(Error::InvalidSecret)
            } else if !token.spec_transfer_ok(self.custody, self.custody, record.taker,
                record.amount) {
                Err(Error::TransferFailed)
            } else {
                Ok(())
            },
        }
    }

    /// What `cancel` answers: the escrow must exist, still be active, the
    /// window must have closed, only the maker may reclaim, and the refund
    /// transfer decides the rest.
    pub open spec fn spec_cancel_result(
        self,
        token: Token,
        caller: u64,
        now: u64,
        escrow_id: EscrowId,
    ) -> Result<(), Error> {
        match self.manager.spec_record(escrow_id) {
            None => Err(Error::NotFound),
            Some(record) => if self.manager.spec_state(escrow_id) != Some(EscrowState::Active) {
                Err(Error::InvalidState)
            } else if !record.spec_window().spec_is_expired(now) {
                Err(Error::WindowViolation)
            } else if caller != record.maker {
                Err(Error::Unauthorized)
            } else if !token.spec_transfer_ok(self.custody, self.custody, record.maker,
                record.amount) {
                Err(Error::TransferFailed)
            } else {
                Ok(())
            },
        }
    }

    /// A fresh machine holding funds in flight on the `custody` account, with
    /// no escrows and an empty event log.
    pub fn new(custody: u64) -> (contract: Self)
        ensures
            contract.custody == custody,
            contract.wf(),
            contract.manager.entries@.len() == 0,
            contract.events@.len() == 0,
    {
        SwapContract { custody, manager: EscrowManager::new(), events: Vec::new() }
    }

    /// Open an escrow: the caller must be the maker, the amount strictly
    /// positive and the window ordered. The maker's funds move into custody
    /// first; if the ledger refuses, nothing is persisted and no event is
    /// emitted — creation is all-or-nothing. On success the record is stored
    /// `Active` under a fresh id, which is returned.
    pub fn create_escrow(
        &mut self,
        caller: u64,
        maker: u64,
        taker: u64,
        token: &mut Token,
        amount: i128,
        hashlock: [u8; 32],
        timelock_start: u64,
        timelock_end: u64,
    ) -> (result: Result<EscrowId, Error>)
        requires
            old(self).wf(),
        ensures
            final(self).wf(),
            final(self).custody == old(self).custody,
            result == old(self).spec_create_result(*old(token), caller, maker, amount,
                timelock_start, timelock_end),
            spec_step_allowed(*old(self), *final(self)),
            result is Err ==> *final(self) == *old(self) && *final(token) == *old(token),
            result is Ok ==> ({
                let id = old(self).manager.spec_fresh_id();
                let record = (Immutables {
                    maker,
                    taker,
                    token: old(token).address,
                    amount,
                    hashlock,
                    timelock_start,
                    timelock_end,
                });
                &&& !old(self).manager.spec_issued(id)
                &&& final(self).manager.entries@ == old(self).manager.entries@.push(
                    (EscrowEntry { record, state: EscrowState::Active }),
                )
                &&& final(self).manager.spec_record(id) == Some(record)
                &&& final(self).manager.spec_state(id) == Some(EscrowState::Active)
                &&& final(self).events@ == old(self).events@.push(
                    Event::Created(
                        (EscrowCreated {
                            escrow_id: id,
                            maker,
                            taker,
                            token: old(token).address,
                            amount,
                        }),
                    ),
                )
                &&& Token::spec_transferred(*old(token), *final(token), maker, old(self).custody,
                    amount)
            }),
    {
        if caller != maker {
            return Err(Error::Unauthorized);
        }
        if amount <= 0 || timelock_start > timelock_end {
            return Err(Error::InvalidParameters);
        }
        let record = Immutables {
            maker,
            taker,
            token: token.address,
            amount,
            hashlock,
            timelock_start,
            timelock_end,
        };
        match token.transfer(maker, maker, self.custody, amount) {
            Ok(()) => {},
            Err(_) => {
                return Err(Error::TransferFailed);
            },
        }
        let id = self.manager.create(record);
        self.events.push(
            Event::Created(
                EscrowCreated { escrow_id: id, maker, taker, token: record.token, amount },
            ),
        );
        Ok(id)
    }

    /// Claim an active escrow by revealing its secret while the window is
    /// open (`start <= now <= end`, both ends inclusive). All checks precede
    /// the payout: if the ledger refuses the transfer, the escrow stays
    /// `Active` and no event is emitted. On success the funds move from
    /// custody to the taker, the state becomes `Withdrawn`, and the event
    /// publishes the secret — deliberately, for any counterpart watching.
    pub fn withdraw(
        &mut self,
        now: u64,
        escrow_id: EscrowId,
        secret: Vec<u8>,
        token: &mut Token,
    ) -> (result: Result<(), Error>)
        requires
            old(self).wf(),
            old(self).manager.spec_record(escrow_id) matches Some(record) ==> record.token == old(
                token,
            ).address,
        ensures
            final(self).wf(),
            final(self).custody == old(self).custody,
            result == old(self).spec_withdraw_result(*old(token), now, escrow_id, secret@),
            spec_step_allowed(*old(self), *final(self)),
            result is Err ==> *final(self) == *old(self) && *final(token) == *old(token),
            result is Ok ==> ({
                let record = old(self).manager.spec_record(escrow_id)->Some_0;
                &&& final(self).manager.entries@ == old(self).manager.entries@.update(
                    escrow_id.index as int,
                    (EscrowEntry { record, state: EscrowState::Withdrawn }),
                )
                &&& final(self).manager.spec_state(escrow_id) == Some(EscrowState::Withdrawn)
                &&& final(self).events@ == old(self).events@.push(
                    Event::Withdrawn(
                        (EscrowWithdrawn {
                            escrow_id,
                            taker: record.taker,
                            amount: record.amount,
                            secret,
                        }),
                    ),
                )
                &&& Token::spec_transferred(*old(token), *final(token), old(self).custody,
                    record.taker, record.amount)
            }),
    {
        let record = match self.manager.get(escrow_id) {
            Some(record) => record,
            None => {
                return Err(Error::NotFound);
            },
        };
        let state = self.manager.get_state(escrow_id).unwrap();
        if state != EscrowState::Active {
            return Err(Error::InvalidState);
        }
        let window = record.window();
        if !window.is_active(now) {
            return Err(Error::WindowViolation);
        }
        if !verify_hashlock(&record.hashlock, &secret) {
            return Err(Error::InvalidSecret);
        }
        match token.transfer(self.custody, self.custody, record.taker, record.amount) {
            Ok(()) => {},
            Err(_) => {
                return Err(Error::TransferFailed);
            },
        }
        self.manager.set_state(escrow_id, EscrowState::Withdrawn);
        self.events.push(
            Event::Withdrawn(
                EscrowWithdrawn { escrow_id, taker: record.taker, amount: record.amount, secret },
            ),
        );
        Ok(())
    }

    /// Reclaim an active escrow after its window has closed (`now` strictly
    /// past `end`: at `end` itself the taker may still claim, so the two
    /// windows are adjacent without overlap or gap). Only the maker may
    /// cancel. All checks precede the refund: if the ledger refuses it, the
    /// escrow stays `Active` and no event is emitted. On success the funds
    /// return from custody to the maker and the state becomes `Cancelled`.
    pub fn cancel(
        &mut self,
        caller: u64,
        now: u64,
        escrow_id: EscrowId,
        token: &mut Token,
    ) -> (result: Result<(), Error>)
        requires
            old(self).wf(),
            old(self).manager.spec_record(escrow_id) matches Some(record) ==> record.token == old(
                token,
            ).address,
        ensures
            final(self).wf(),
            final(self).custody == old(self).custody,
            result == old(self).spec_cancel_result(*old(token), caller, now, escrow_id),
            spec_step_allowed(*old(self), *final(self)),
            result is Err ==> *final(self) == *old(self) && *final(token) == *old(token),
            result is Ok ==> ({
                let record = old(self).manager.spec_record(escrow_id)->Some_0;
                &&& final(self).manager.entries@ == old(self).manager.entries@.update(
                    escrow_id.index as int,
                    (EscrowEntry { record, state: EscrowState::Cancelled }),
                )
                &&& final(self).manager.spec_state(escrow_id) == Some(EscrowState::Cancelled)
                &&& final(self).events@ == old(self).events@.push(
                    Event::Cancelled(
                        (EscrowCancelled {
                            escrow_id,
                            maker: record.maker,
                            amount: record.amount,
                        }),
                    ),
                )
                &&& Token::spec_transferred(*old(token), *final(token), old(self).custody,
                    record.maker, record.amount)
            }),
    {
        let record = match self.manager.get(escrow_id) {
            Some(record) => record,
            None => {
                return Err(Error::NotFound);
            },
        };
        let state = self.manager.get_state(escrow_id).unwrap();
        if state != EscrowState::Active {
            return Err(Error::InvalidState);
        }
        let window = record.window();
        if !window.is_expired(now) {
            return Err(Error::WindowViolation);
        }
        if caller != record.maker {
            return Err(Error::Unauthorized);
        }
        match token.transfer(self.custody, self.custody, record.maker, record.amount) {
            Ok(()) => {},
            Err(_) => {
                return Err(Error::TransferFailed);
            },
        }
        self.manager.set_state(escrow_id, EscrowState::Cancelled);
        self.events.push(
            Event::Cancelled(
                EscrowCancelled { escrow_id, maker: record.maker, amount: record.amount },
            ),
        );
        Ok(())
    }

    /// Read an escrow's record; `None` for an unknown id, never a panic.
    pub fn get_escrow(&self, escrow_id: EscrowId) -> (record: Option<Immutables>)
        ensures
            record == self.manager.spec_record(escrow_id),
    {
        self.manager.get(escrow_id)
    }

    /// Read an escrow's state; `None` for an unknown id, never a panic.
    pub fn get_escrow_state(&self, escrow_id: EscrowId) -> (state: Option<EscrowState>)
        ensures
            state == self.manager.spec_state(escrow_id),
    {
        self.manager.get_state(escrow_id)
    }
}

} // verus!
