use vstd::prelude::*;

use std::collections::HashMap;

verus! {

broadcast use vstd::std_specs::hash::group_hash_axioms;

/// Why the asset ledger refused an operation. Each failure leaves the ledger
/// exactly as it was.
#[derive(Clone, Copy, PartialEq, Eq, Structural, Debug)]
pub enum TokenError {
    /// `initialize` was called twice.
    AlreadyInitialized,
    /// Minting was attempted before the ledger had an admin.
    NotInitialized,
    /// The caller is not the account the operation must be signed by.
    Unauthorized,
    /// A negative amount.
    InvalidAmount,
    /// The sender does not hold the amount to move.
    InsufficientBalance,
    /// A balance or the total supply would exceed the representable range.
    Overflow,
}

/// A fungible-asset ledger: balances keyed by account handle, an admin who
/// may mint, and a transfer that fails explicitly — on a short balance it
/// refuses rather than truncates. The escrow state machine consumes it as its
/// external asset ledger, addressed by the opaque `address` handle that
/// escrow records store.
#[derive(Debug)]
pub struct Token {
    pub address: u64,
    pub initialized: bool,
    pub admin: u64,
    pub name: String,
    pub symbol: String,
    pub decimals: u32,
    pub total_supply: i128,
    pub balances: HashMap<u64, i128>,
}

impl Token {
    /// The balance of an account: what is stored, or zero for an account
    /// never written.
    pub open spec fn spec_balance(self, account: u64) -> i128 {
        if self.balances@.contains_key(account) {
            self.balances@[account]
        } else {
            0
        }
    }

    /// The ledger's configuration, untouched by every balance movement.
    pub open spec fn spec_same_config(self, other: Token) -> bool {
        &&& self.address == other.address
        &&& self.initialized == other.initialized
        &&& self.admin == other.admin
        &&& self.name == other.name
        &&& self.symbol == other.symbol
        &&& self.decimals == other.decimals
    }

    /// When a transfer goes through: the claimed sender is the caller, the
    /// amount is non-negative, the sender holds it, and the receiver's
    /// balance does not overflow.
    pub open spec fn spec_transfer_ok(self, caller: u64, from: u64, to: u64, amount: i128) -> bool {
        &&& caller == from
        &&& amount >= 0
        &&& self.spec_balance(from) >= amount
        &&& (from == to || self.spec_balance(to) + amount <= i128::MAX)
    }

    /// How a successful transfer leaves the ledger: the amount moved from
    /// sender to receiver, every other balance, the supply and the
    /// configuration untouched; a self-transfer moves nothing.
    pub open spec fn spec_transferred(pre: Token, post: Token, from: u64, to: u64, amount: i128) -> bool {
        if from == to {
            post == pre
        } else {
            &&& post.spec_balance(from) == pre.spec_balance(from) - amount
            &&& post.spec_balance(to) == pre.spec_balance(to) + amount
            &&& forall|account: u64| account != from && account != to
                ==> post.spec_balance(account) == pre.spec_balance(account)
            &&& post.total_supply == pre.total_supply
            &&& post.spec_same_config(pre)
        }
    }

    /// A fresh ledger under the given handle: uninitialized, every balance
    /// zero.
    pub fn new(address: u64) -> (token: Self)
        ensures
            token.address == address,
            !token.initialized,
            token.total_supply == 0,
            token.balances@ == Map::<u64, i128>::empty(),
            forall|account: u64| token.spec_balance(account) == 0,
    {
        Token {
            address,
            initialized: false,
            admin: 0,
            name: String::new(),
            symbol: String::new(),
            decimals: 0,
            total_supply: 0,
            balances: HashMap::new(),
        }
    }

    /// Set the ledger's admin and metadata, once.
    pub fn initialize(&mut self, admin: u64, name: String, symbol: String, decimals: u32) -> (result:
        Result<(), TokenError>)
        ensures
            result == (if old(self).initialized {
                Err::<(), TokenError>(TokenError::AlreadyInitialized)
            } else {
                Ok::<(), TokenError>(())
            }),
            result is Err ==> *final(self) == *old(self),
            result is Ok ==> {
                &&& final(self).initialized
                &&& final(self).admin == admin
                &&& final(self).name == name
                &&& final(self).symbol == symbol
                &&& final(self).decimals == decimals
                &&& final(self).total_supply == 0
                &&& final(self).address == old(self).address
                &&& final(self).balances@ == old(self).balances@
            },
    {
        if self.initialized {
            return Err(TokenError::AlreadyInitialized);
        }
        self.initialized = true;
        self.admin = admin;
        self.name = name;
        self.symbol = symbol;
        self.decimals = decimals;
        self.total_supply = 0;
        Ok(())
    }

    /// Create `amount` new units on `to`'s balance. Only the admin of an
    /// initialized ledger may mint.
    pub fn mint(&mut self, caller: u64, to: u64, amount: i128) -> (result: Result<(), TokenError>)
        ensures
            result == (if !old(self).initialized {
                Err::<(), TokenError>(TokenError::NotInitialized)
            } else if caller != old(self).admin {
                Err::<(), TokenError>(TokenError::Unauthorized)
            } else if amount < 0 {
                Err::<(), TokenError>(TokenError::InvalidAmount)
            } else if old(self).spec_balance(to) + amount > i128::MAX || old(self).total_supply
                + amount > i128::MAX {
                Err::<(), TokenError>(TokenError::Overflow)
            } else {
                Ok::<(), TokenError>(())
            }),
            result is Err ==> *final(self) == *old(self),
            result is Ok ==> {
                &&& final(self).spec_balance(to) == old(self).spec_balance(to) + amount
                &&& forall|account: u64| account != to ==> final(self).spec_balance(account)
                    == old(self).spec_balance(account)
                &&& final(self).total_supply == old(self).total_supply + amount
                &&& final(self).spec_same_config(*old(self))
            },
    {
        if !self.initialized {
            return Err(TokenError::NotInitialized);
        }
        if caller != self.admin {
            return Err(TokenError::Unauthorized);
        }
        if amount < 0 {
            return Err(TokenError::InvalidAmount);
        }
        let to_balance = self.balance(to);
        if to_balance > i128::MAX - amount {
            return Err(TokenError::Overflow);
        }
        if self.total_supply > i128::MAX - amount {
            return Err(TokenError::Overflow);
        }
        self.balances.insert(to, to_balance + amount);
        self.total_supply = self.total_supply + amount;
        Ok(())
    }

    /// Move `amount` from `from` to `to`. The sender must be the caller and
    /// must hold the amount; a short balance is refused, never truncated.
    pub fn transfer(&mut self, caller: u64, from: u64, to: u64, amount: i128) -> (result: Result<
        (),
        TokenError,
    >)
        ensures
            result == (if caller != from {
                Err::<(), TokenError>(TokenError::Unauthorized)
            } else if amount < 0 {
                Err::<(), TokenError>(TokenError::InvalidAmount)
            } else if old(self).spec_balance(from) < amount {
                Err::<(), TokenError>(TokenError::InsufficientBalance)
            } else if from != to && old(self).spec_balance(to) + amount > i128::MAX {
                Err::<(), TokenError>(TokenError::Overflow)
            } else {
                Ok::<(), TokenError>(())
            }),
            result is Ok <==> old(self).spec_transfer_ok(caller, from, to, amount),
            result is Err ==> *final(self) == *old(self),
            result is Ok ==> Token::spec_transferred(*old(self), *final(self), from, to, amount),
    {
        if caller != from {
            return Err(TokenError::Unauthorized);
        }
        if amount < 0 {
            return Err(TokenError::InvalidAmount);
        }
        let from_balance = self.balance(from);
        if from_balance < amount {
            return Err(TokenError::InsufficientBalance);
        }
        if from == to {
            return Ok(());
        }
        let to_balance = self.balance(to);
        if to_balance > i128::MAX - amount {
            return Err(TokenError::Overflow);
        }
        self.balances.insert(from, from_balance - amount);
        self.balances.insert(to, to_balance + amount);
        Ok(())
    }

    /// The stored balance of an account; zero when it was never written.
    pub fn balance(&self, account: u64) -> (balance: i128)
        ensures
            balance == self.spec_balance(account),
    {
        match self.balances.get(&account) {
            Some(value) => *value,
            None => 0,
        }
    }

    pub fn total_supply(&self) -> (supply: i128)
        ensures
            supply == self.total_supply,
    {
        self.total_supply
    }

    pub fn name(&self) -> (name: String)
        ensures
            name == self.name,
    {
        self.name.clone()
    }

    pub fn symbol(&self) -> (symbol: String)
        ensures
            symbol == self.symbol,
    {
        self.symbol.clone()
    }

    pub fn decimals(&self) -> (decimals: u32)
        ensures
            decimals == self.decimals,
    {
        self.decimals
    }
}

} // verus!
