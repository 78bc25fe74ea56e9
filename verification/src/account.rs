//! A snapshot of one account as the host presents it to a transition.

use crate::address::{address_eq, Address, TOKEN_PROGRAM_ID};
use crate::error::ProgramError;
use vstd::bytes::{spec_u64_from_le_bytes, u64_from_le_bytes};
use vstd::prelude::*;
use vstd::slice::slice_subrange;

verus! {

/// Length of a mint's data, fixed by the token standard.
pub const MINT_LEN: usize = 82;

/// Length of a token-holding account's data, fixed by the token standard.
pub const TOKEN_ACCOUNT_LEN: usize = 165;

/// Where a token-holding account's data keeps its balance: eight bytes,
/// little-endian, behind the mint and the owner.
pub const TOKEN_AMOUNT_OFFSET: usize = 64;

/// What a transition reads of an account: who it is, who owns it, what it
/// holds, and whether it signed.
#[derive(Clone, PartialEq, Eq, Debug)]
pub struct Account {
    /// The account's address.
    pub key: Address,
    /// The program that owns the account.
    pub owner: Address,
    /// The balance reserved in the account.
    pub lamports: u64,
    /// The account's data.
    pub data: Vec<u8>,
    /// Whether the account authorized the transaction.
    pub is_signer: bool,
}

/// The balance that the data of a token-holding account records.
pub open spec fn token_balance(data: Seq<u8>) -> u64
    recommends
        data.len() == TOKEN_ACCOUNT_LEN,
{
    spec_u64_from_le_bytes(data.subrange(TOKEN_AMOUNT_OFFSET as int, TOKEN_AMOUNT_OFFSET + 8))
}

impl Account {
    /// Whether the account is a token-holding account by shape and owner.
    pub open spec fn is_token_account(&self) -> bool {
        self.data@.len() == TOKEN_ACCOUNT_LEN && self.owner == TOKEN_PROGRAM_ID
    }

    /// Whether the account is a mint by shape and owner.
    pub open spec fn is_mint(&self) -> bool {
        self.data@.len() == MINT_LEN && self.owner == TOKEN_PROGRAM_ID
    }

    /// The length of the account's data.
    pub fn data_len(&self) -> (len: usize)
        ensures
            len == self.data@.len(),
    {
        self.data.len()
    }

    /// Whether `program` owns the account.
    pub fn is_owned_by(&self, program: &Address) -> (owned: bool)
        ensures
            owned == (self.owner == *program),
    {
        address_eq(&self.owner, program)
    }

    /// The token balance of a token-holding account.
    ///
    /// An account of another length, or one that the token program does not
    /// own, is no token-holding account and has no balance.
    pub fn token_amount(&self) -> (amount: Result<u64, ProgramError>)
        ensures
            self.is_token_account() ==> amount == Ok::<u64, ProgramError>(
                token_balance(self.data@),
            ),
            !self.is_token_account() ==> amount == Err::<u64, ProgramError>(
                ProgramError::InvalidAccountData,
            ),
    {
        if self.data.len() != TOKEN_ACCOUNT_LEN {
            return Err(ProgramError::InvalidAccountData);
        }
        let token_program: Address = TOKEN_PROGRAM_ID;
        if !self.is_owned_by(&token_program) {
            return Err(ProgramError::InvalidAccountData);
        }
        let field = slice_subrange(self.data.as_slice(), TOKEN_AMOUNT_OFFSET, TOKEN_AMOUNT_OFFSET + 8);
        Ok(u64_from_le_bytes(field))
    }
}

} // verus!
