//! What a transition asks of the host: the effects, in the order in which they
//! have to be carried out.

use crate::address::{escrow_address, escrow_seeds, Address, ESCROW_TAG};
use crate::state::Escrow;
use vstd::bytes::u64_to_le_bytes;
use vstd::prelude::*;
use vstd::slice::slice_to_vec;

verus! {

/// The capability to sign as an escrow: the seeds of its address and the bump
/// that completes them. Whoever holds the private key of the maker does not
/// hold this; only the program can turn it into a signature.
#[derive(Clone, Copy, PartialEq, Eq, Debug)]
pub struct EscrowSigner {
    /// The maker whose escrow it is.
    pub maker: Address,
    /// The maker's nonce for this escrow.
    pub seed: u64,
    /// The bump that completes the escrow's address.
    pub bump: u8,
}

/// A seed list as plain byte strings.
pub open spec fn seed_bytes(seeds: Seq<Vec<u8>>) -> Seq<Seq<u8>> {
    Seq::new(seeds.len(), |i: int| seeds[i]@)
}

impl EscrowSigner {
    /// The seed list that signs: the escrow's seeds followed by the bump.
    pub open spec fn seed_list(self) -> Seq<Seq<u8>> {
        escrow_seeds(self.maker, self.seed).push(seq![self.bump])
    }

    /// Whether this is the capability of the escrow at `address` under
    /// `program_id`: the one that the derivation of its seeds yields.
    pub open spec fn signs_for(self, program_id: Address, address: Address) -> bool {
        escrow_address(program_id, self.maker, self.seed) == (address@, self.bump)
    }

    /// The seed list that signs, for the host.
    pub fn seeds(&self) -> (seeds: Vec<Vec<u8>>)
        ensures
            seed_bytes(seeds@) == self.seed_list(),
    {
        let mut seeds: Vec<Vec<u8>> = Vec::new();
        seeds.push(slice_to_vec(ESCROW_TAG.as_slice()));
        seeds.push(slice_to_vec(self.maker.as_slice()));
        seeds.push(u64_to_le_bytes(self.seed));
        let mut bump: Vec<u8> = Vec::new();
        bump.push(self.bump);
        seeds.push(bump);
        assert(seed_bytes(seeds@) =~= self.seed_list());
        seeds
    }
}

/// Who authorizes a movement of tokens or the closing of a holding account.
#[derive(Clone, Copy, PartialEq, Eq, Debug)]
pub enum Authority {
    /// An account that signed the transaction itself.
    Wallet { address: Address },
    /// The escrow at `address`, for which the program signs with the seeds.
    Escrow { address: Address, signer: EscrowSigner },
}

/// One effect on the host.
#[derive(Clone, Copy, PartialEq, Eq, Debug)]
pub enum Action {
    /// Allocate `space` bytes at `to`, owned by `owner` and funded by `from`
    /// with exactly the balance that exempts that much storage from rent. The
    /// new account signs its own creation through `signer`.
    CreateAccount { from: Address, to: Address, space: u64, owner: Address, signer: EscrowSigner },
    /// Create the holding account `account` of `wallet` for `mint`, funded by
    /// `funding_account`.
    CreateAssociatedTokenAccount {
        funding_account: Address,
        account: Address,
        wallet: Address,
        mint: Address,
        system_program: Address,
        token_program: Address,
    },
    /// Write the encoding of `record` over the data of `account`.
    WriteRecord { account: Address, record: Escrow },
    /// Move `amount` tokens from `from` to `to`.
    Transfer { from: Address, to: Address, authority: Authority, amount: u64 },
    /// Close the holding account `account` and hand its reserved balance to
    /// `destination`.
    CloseAccount { account: Address, destination: Address, authority: Authority },
    /// Overwrite the first byte of the data of `account` with the tombstone.
    Tombstone { account: Address },
    /// Add the whole reserved balance of `from` to that of `to`.
    ReclaimLamports { from: Address, to: Address },
    /// Shrink or grow the data of `account` to `new_len` bytes.
    Resize { account: Address, new_len: usize },
    /// Release `account`: no balance, no data, no owner.
    Close { account: Address },
}

} // verus!
