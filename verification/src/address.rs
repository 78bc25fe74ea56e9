//! Addresses, the well-known program identities, and address derivation.

use vstd::bytes::{spec_u64_to_le_bytes, u64_to_le_bytes};
use vstd::prelude::*;

verus! {

/// A 32-byte account address.
pub type Address = [u8; 32];

/// Address of the token program, which owns every mint and every token-holding
/// account.
pub const TOKEN_PROGRAM_ID: Address = [
    6, 221, 246, 225, 215, 101, 161, 147, 217, 203, 225, 70, 206, 235, 121, 172,
    28, 180, 133, 237, 95, 91, 55, 145, 58, 140, 245, 133, 126, 255, 0, 169,
];

/// Address of the system program, which owns every plain wallet account and
/// allocates new accounts.
pub const SYSTEM_PROGRAM_ID: Address = [
    0, 0, 0, 0, 0, 0, 0, 0, 0, 0, 0, 0, 0, 0, 0, 0,
    0, 0, 0, 0, 0, 0, 0, 0, 0, 0, 0, 0, 0, 0, 0, 0,
];

/// Address of the associated-token-account program, under whose namespace the
/// canonical holding account of a wallet for a mint is derived.
pub const ASSOCIATED_TOKEN_PROGRAM_ID: Address = [
    140, 151, 37, 143, 78, 36, 137, 241, 187, 61, 16, 41, 20, 142, 13, 131,
    11, 90, 19, 153, 218, 255, 16, 132, 4, 142, 123, 216, 219, 233, 248, 89,
];

/// The first seed of every escrow address: the ASCII bytes of `escrow`.
pub const ESCROW_TAG: [u8; 6] = [101, 115, 99, 114, 111, 119];

/// Byte-for-byte comparison of two addresses.
pub fn address_eq(a: &Address, b: &Address) -> (same: bool)
    ensures
        same == (*a == *b),
{
    let mut i: usize = 0;
    while i < 32
        invariant
            i <= 32,
            forall|k: int| 0 <= k < i ==> a[k] == b[k],
        decreases 32 - i,
    {
        if a[i] != b[i] {
            return false;
        }
        i += 1;
    }
    assert(*a =~= *b);
    true
}

/// What the host's search for a program-derived address answers for the given
/// seeds under the given program: the address and the bump that completes it.
pub uninterp spec fn program_address(seeds: Seq<Seq<u8>>, program_id: Seq<u8>) -> (Seq<u8>, u8);

/// Whether `found` is an answer that the host's search can give where
/// `expected` is what belongs to the seeds: no answer at all, or that one.
pub open spec fn answers(found: Option<(Address, u8)>, expected: (Seq<u8>, u8)) -> bool {
    found matches Some(pair) ==> (pair.0@, pair.1) == expected
}

/// The seeds as plain byte strings.
pub open spec fn seeds_view(seeds: Seq<&[u8]>) -> Seq<Seq<u8>> {
    Seq::new(seeds.len(), |i: int| seeds[i]@)
}

/// Calls `pinocchio::pubkey::try_find_program_address`.
///
/// The search is the host's: it hashes the seeds with a bump and the program
/// and keeps the first result that is no valid curve point. Nothing is claimed
/// about whether it answers at all (off the host it never does). When it does,
/// the answer is the one that belongs to these seeds and this program.
#[verifier::external_body]
fn try_find_program_address(seeds: &[&[u8]], program_id: &Address) -> (found: Option<
    (Address, u8),
>)
    ensures
        found matches Some(pair) ==> (pair.0@, pair.1) == program_address(
            seeds_view(seeds@),
            program_id@,
        ),
{
    pinocchio::pubkey::try_find_program_address(seeds, program_id)
}

/// The seeds of an escrow address: the tag, the maker's address and the
/// maker's chosen nonce in little-endian order.
pub open spec fn escrow_seeds(maker: Address, seed: u64) -> Seq<Seq<u8>> {
    seq![ESCROW_TAG@, maker@, spec_u64_to_le_bytes(seed)]
}

/// The address and bump that belong to the escrow of `maker` with nonce `seed`
/// under `program_id`.
pub open spec fn escrow_address(program_id: Address, maker: Address, seed: u64) -> (Seq<u8>, u8) {
    program_address(escrow_seeds(maker, seed), program_id@)
}

/// The seeds of a wallet's holding account for a mint.
pub open spec fn associated_token_seeds(
    wallet: Address,
    token_program: Address,
    mint: Address,
) -> Seq<Seq<u8>> {
    seq![wallet@, token_program@, mint@]
}

/// The address and bump of the holding account of `wallet` for `mint`.
pub open spec fn associated_token_address(
    wallet: Address,
    token_program: Address,
    mint: Address,
) -> (Seq<u8>, u8) {
    program_address(
        associated_token_seeds(wallet, token_program, mint),
        ASSOCIATED_TOKEN_PROGRAM_ID@,
    )
}

/// Derives the address of the escrow record of `maker` with nonce `seed`.
///
/// `None` means that the host found no address for these seeds.
pub fn find_escrow_address(program_id: &Address, maker: &Address, seed: u64) -> (found: Option<
    (Address, u8),
>)
    ensures
        answers(found, escrow_address(*program_id, *maker, seed)),
{
    let nonce: Vec<u8> = u64_to_le_bytes(seed);
    let seeds: [&[u8]; 3] = [ESCROW_TAG.as_slice(), maker.as_slice(), nonce.as_slice()];
    assert(seeds_view(seeds@) =~= escrow_seeds(*maker, seed));
    try_find_program_address(seeds.as_slice(), program_id)
}

/// Derives the address of the holding account of `wallet` for `mint`.
///
/// `None` means that the host found no address for these seeds.
pub fn find_associated_token_address(
    wallet: &Address,
    token_program: &Address,
    mint: &Address,
) -> (found: Option<(Address, u8)>)
    ensures
        answers(found, associated_token_address(*wallet, *token_program, *mint)),
{
    let seeds: [&[u8]; 3] = [wallet.as_slice(), token_program.as_slice(), mint.as_slice()];
    assert(seeds_view(seeds@) =~= associated_token_seeds(*wallet, *token_program, *mint));
    let program: Address = ASSOCIATED_TOKEN_PROGRAM_ID;
    try_find_program_address(seeds.as_slice(), &program)
}

} // verus!
