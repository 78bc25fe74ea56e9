//! The host as the transitions take it to be: what each action has done once
//! the host has carried it out. Nothing here runs; it serves to say what the
//! actions of a transition add up to.
//!
//! Mints are taken to be ordinary ones, whose holding accounts keep their
//! balance in their data alone. The wrapped native token, whose holding
//! accounts carry their balance in their reserved balance as well, is not
//! described here.

use crate::account::{token_balance, Account, TOKEN_ACCOUNT_LEN};
use crate::action::Action;
use crate::address::{Address, SYSTEM_PROGRAM_ID, TOKEN_PROGRAM_ID};
use crate::state::{Escrow, TOMBSTONE};
use vstd::bytes::spec_u64_to_le_bytes;
use vstd::prelude::*;

verus! {

/// What the host holds at one address.
pub struct Slot {
    /// The program that owns the account.
    pub owner: Address,
    /// The balance reserved in the account.
    pub lamports: nat,
    /// The account's data.
    pub data: Seq<u8>,
}

/// The slot of an account that does not exist: it belongs to the system
/// program and holds neither balance nor data.
pub open spec fn vacant() -> Slot {
    Slot { owner: SYSTEM_PROGRAM_ID, lamports: 0, data: Seq::empty() }
}

/// `len` zero bytes.
pub open spec fn zeroed(len: nat) -> Seq<u8> {
    Seq::new(len, |i: int| 0u8)
}

/// `data` cut or zero-extended to `len` bytes.
pub open spec fn resized(data: Seq<u8>, len: nat) -> Seq<u8> {
    if len <= data.len() {
        data.take(len as int)
    } else {
        data + zeroed((len - data.len()) as nat)
    }
}

/// Whether `after` is still the token-holding account that `before` is: the
/// same owner, reserved balance and length, for the same mint and the same
/// wallet. What it records beyond that may differ.
pub open spec fn same_holding_account(before: Slot, after: Slot) -> bool {
    &&& after.owner == before.owner
    &&& after.lamports == before.lamports
    &&& after.data.len() == before.data.len()
    &&& after.data.subrange(0, 64) == before.data.subrange(0, 64)
}

/// The data of a token-holding account with `balance` put in place of the
/// balance it records.
pub open spec fn with_balance(data: Seq<u8>, balance: u64) -> Seq<u8> {
    data.subrange(0, 64) + spec_u64_to_le_bytes(balance) + data.subrange(
        72,
        TOKEN_ACCOUNT_LEN as int,
    )
}

/// Everything the host holds, by address.
pub struct Ledger {
    /// The slot at each address.
    pub slots: Map<Address, Slot>,
}

impl Ledger {
    /// What the host holds at `address`.
    pub open spec fn at(self, address: Address) -> Slot {
        if self.slots.dom().contains(address) {
            self.slots[address]
        } else {
            vacant()
        }
    }

    /// The ledger with `slot` at `address` and everything else as it is.
    pub open spec fn with(self, address: Address, slot: Slot) -> Ledger {
        Ledger { slots: self.slots.insert(address, slot) }
    }

    /// Whether `account` is a true picture of what the host holds at its
    /// address.
    pub open spec fn shows(self, account: Account) -> bool {
        self.at(account.key) == (Slot {
            owner: account.owner,
            lamports: account.lamports as nat,
            data: account.data@,
        })
    }

    /// Whether a token-holding account sits at `address`.
    pub open spec fn holds_tokens(self, address: Address) -> bool {
        self.at(address).owner == TOKEN_PROGRAM_ID && self.at(address).data.len()
            == TOKEN_ACCOUNT_LEN
    }

    /// The token balance at `address`.
    pub open spec fn balance(self, address: Address) -> u64
        recommends
            self.holds_tokens(address),
    {
        token_balance(self.at(address).data)
    }

    /// Whether `after` holds what `self` holds everywhere but at the two
    /// addresses.
    pub open spec fn same_except(self, after: Ledger, first: Address, second: Address) -> bool {
        forall|other: Address|
            other != first && other != second ==> #[trigger] after.at(other) == self.at(other)
    }

    /// Whether `after` is what the host holds once it has carried out `action`
    /// on `self`. An action that the host refuses leads nowhere.
    pub open spec fn becomes(self, action: Action, after: Ledger) -> bool {
        match action {
            Action::CreateAccount { from, to, space, owner, .. } => {
                &&& from != to
                &&& self.at(to) == vacant()
                &&& after.at(to).owner == owner
                &&& after.at(to).data == zeroed(space as nat)
                &&& after.at(from).owner == self.at(from).owner
                &&& after.at(from).data == self.at(from).data
                &&& after.at(from).lamports + after.at(to).lamports == self.at(from).lamports
                &&& self.same_except(after, from, to)
            },
            Action::CreateAssociatedTokenAccount { funding_account, account, wallet, mint, .. } => {
                &&& funding_account != account
                &&& self.at(account).owner == SYSTEM_PROGRAM_ID
                &&& self.at(account).data.len() == 0
                &&& after.holds_tokens(account)
                &&& after.balance(account) == 0
                &&& after.at(account).data.subrange(0, 32) == mint@
                &&& after.at(account).data.subrange(32, 64) == wallet@
                &&& after.at(funding_account).owner == self.at(funding_account).owner
                &&& after.at(funding_account).data == self.at(funding_account).data
                &&& after.at(funding_account).lamports + after.at(account).lamports == self.at(
                    funding_account,
                ).lamports + self.at(account).lamports
                &&& self.same_except(after, funding_account, account)
            },
            Action::WriteRecord { account, record } => {
                &&& self.at(account).data.len() == Escrow::LEN
                &&& after.at(account) == (Slot { data: record.encoding(), ..self.at(account) })
                &&& self.same_except(after, account, account)
            },
            Action::Transfer { from, to, amount, .. } => {
                &&& self.holds_tokens(from)
                &&& self.holds_tokens(to)
                &&& self.balance(from) >= amount
                &&& same_holding_account(self.at(from), after.at(from))
                &&& same_holding_account(self.at(to), after.at(to))
                &&& from != to ==> after.balance(from) == self.balance(from) - amount
                &&& from != to ==> after.balance(to) == self.balance(to) + amount
                &&& from == to ==> after.balance(from) == self.balance(from)
                &&& self.same_except(after, from, to)
            },
            Action::CloseAccount { account, destination, .. } => {
                &&& account != destination
                &&& self.holds_tokens(account)
                &&& self.balance(account) == 0
                &&& after.at(account) == vacant()
                &&& after.at(destination) == (Slot {
                    lamports: self.at(destination).lamports + self.at(account).lamports,
                    ..self.at(destination)
                })
                &&& self.same_except(after, account, destination)
            },
            Action::Tombstone { account } => {
                &&& self.at(account).data.len() >= 1
                &&& after.at(account) == (Slot {
                    data: self.at(account).data.update(0, TOMBSTONE),
                    ..self.at(account)
                })
                &&& self.same_except(after, account, account)
            },
            Action::ReclaimLamports { from, to } => {
                &&& from != to
                &&& after.at(to) == (Slot {
                    lamports: self.at(to).lamports + self.at(from).lamports,
                    ..self.at(to)
                })
                &&& self.same_except(after, to, to)
            },
            Action::Resize { account, new_len } => {
                &&& after.at(account) == (Slot {
                    data: resized(self.at(account).data, new_len as nat),
                    ..self.at(account)
                })
                &&& self.same_except(after, account, account)
            },
            Action::Close { account } => {
                &&& after.at(account) == vacant()
                &&& self.same_except(after, account, account)
            },
        }
    }
}

/// Whether `states` are what the host holds before, between and after the
/// `actions`, each carried out in turn: one state more than there are actions.
pub open spec fn carried_out(states: Seq<Ledger>, actions: Seq<Action>) -> bool {
    &&& states.len() == actions.len() + 1
    &&& forall|i: int|
        0 <= i < actions.len() ==> (#[trigger] states[i]).becomes(actions[i], states[i + 1])
}

} // verus!
