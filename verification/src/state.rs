//! The escrow record: the terms of one pending swap, and its fixed layout.

use crate::address::Address;
use crate::error::ProgramError;
use vstd::bytes::{
    lemma_auto_spec_u64_to_from_le_bytes, spec_u64_from_le_bytes, spec_u64_to_le_bytes,
    u64_from_le_bytes, u64_to_le_bytes,
};
use vstd::prelude::*;
use vstd::slice::slice_subrange;

verus! {

/// The value written over the first byte of a record that has been consumed.
pub const TOMBSTONE: u8 = 0xff;

/// The length to which a consumed record's storage is shrunk: room for the
/// tombstone and nothing else.
pub const CLOSED_LEN: usize = 1;

/// The terms of one pending swap, as persisted under the escrow's address.
#[derive(Clone, Copy, PartialEq, Eq, Debug)]
pub struct Escrow {
    /// The maker's nonce, which tells the maker's escrows apart.
    pub seed: u64,
    /// The depositor, and the only one a refund goes to.
    pub maker: Address,
    /// The mint of the deposit.
    pub mint_a: Address,
    /// The mint the maker wants in return.
    pub mint_b: Address,
    /// How much of `mint_b` the maker asks for.
    pub receive: u64,
    /// The bump that completes the escrow's address.
    pub bump: u8,
}

/// Reads 32 bytes of `bytes` from `offset` on as an address.
fn address_at(bytes: &[u8], offset: usize) -> (address: Address)
    requires
        offset + 32 <= bytes@.len(),
    ensures
        address@ == bytes@.subrange(offset as int, offset + 32),
{
    let len: usize = bytes.len();
    let mut address: Address = [0u8; 32];
    let mut i: usize = 0;
    while i < 32
        invariant
            i <= 32,
            len == bytes@.len(),
            offset + 32 <= len,
            forall|k: int| 0 <= k < i ==> address[k] == bytes@[offset + k],
        decreases 32 - i,
    {
        address[i] = bytes[offset + i];
        i += 1;
    }
    assert(address@ =~= bytes@.subrange(offset as int, offset + 32));
    address
}

impl Escrow {
    /// The length of a record's encoding.
    pub const LEN: usize = 113;

    /// The record's encoding: its fields in order, integers little-endian,
    /// with no padding.
    pub open spec fn encoding(self) -> Seq<u8> {
        spec_u64_to_le_bytes(self.seed) + self.maker@ + self.mint_a@ + self.mint_b@
            + spec_u64_to_le_bytes(self.receive) + seq![self.bump]
    }

    /// The nonce that a record's encoding names: its first eight bytes.
    pub open spec fn seed_of(bytes: Seq<u8>) -> u64 {
        spec_u64_from_le_bytes(bytes.subrange(0, 8))
    }

    /// The bump that a record's encoding names: its last byte.
    pub open spec fn bump_of(bytes: Seq<u8>) -> u8 {
        bytes[Escrow::LEN - 1]
    }

    /// Decodes a record.
    ///
    /// Data of any other length than [`Escrow::LEN`] holds no record. Data of
    /// that length holds exactly one: the record whose encoding it is.
    pub fn load(bytes: &[u8]) -> (loaded: Result<Escrow, ProgramError>)
        ensures
            bytes@.len() != Escrow::LEN ==> loaded == Err::<Escrow, ProgramError>(
                ProgramError::InvalidAccountData,
            ),
            bytes@.len() == Escrow::LEN ==> loaded is Ok && loaded->Ok_0.encoding() == bytes@,
            loaded matches Ok(record) ==> record.seed == Escrow::seed_of(bytes@) && record.bump
                == Escrow::bump_of(bytes@),
    {
        if bytes.len() != Escrow::LEN {
            return Err(ProgramError::InvalidAccountData);
        }
        let record = Escrow {
            seed: u64_from_le_bytes(slice_subrange(bytes, 0, 8)),
            maker: address_at(bytes, 8),
            mint_a: address_at(bytes, 40),
            mint_b: address_at(bytes, 72),
            receive: u64_from_le_bytes(slice_subrange(bytes, 104, 112)),
            bump: bytes[112],
        };
        proof {
            lemma_auto_spec_u64_to_from_le_bytes();
            assert(spec_u64_to_le_bytes(record.seed) == bytes@.subrange(0, 8));
            assert(spec_u64_to_le_bytes(record.receive) == bytes@.subrange(104, 112));
            assert(record.encoding() =~= bytes@);
        }
        Ok(record)
    }

    /// Encodes the record.
    pub fn to_bytes(&self) -> (bytes: Vec<u8>)
        ensures
            bytes@ == self.encoding(),
            bytes@.len() == Escrow::LEN,
    {
        let mut bytes: Vec<u8> = u64_to_le_bytes(self.seed);
        bytes.extend_from_slice(self.maker.as_slice());
        bytes.extend_from_slice(self.mint_a.as_slice());
        bytes.extend_from_slice(self.mint_b.as_slice());
        let mut receive: Vec<u8> = u64_to_le_bytes(self.receive);
        bytes.append(&mut receive);
        bytes.push(self.bump);
        bytes
    }
}

/// The encoding of a record always has the fixed length.
pub proof fn lemma_encoding_len(record: Escrow)
    ensures
        record.encoding().len() == Escrow::LEN,
{
    lemma_auto_spec_u64_to_from_le_bytes();
}

/// The nonce and the bump that an encoding names are those of the record.
pub proof fn lemma_encoding_names(record: Escrow)
    ensures
        Escrow::seed_of(record.encoding()) == record.seed,
        Escrow::bump_of(record.encoding()) == record.bump,
{
    lemma_auto_spec_u64_to_from_le_bytes();
    assert(record.encoding().subrange(0, 8) =~= spec_u64_to_le_bytes(record.seed));
}

/// Two records with the same encoding are the same record.
pub proof fn lemma_encoding_injective(a: Escrow, b: Escrow)
    requires
        a.encoding() == b.encoding(),
    ensures
        a == b,
{
    lemma_auto_spec_u64_to_from_le_bytes();
    let x = a.encoding();
    let y = b.encoding();
    assert(x.subrange(0, 8) =~= spec_u64_to_le_bytes(a.seed));
    assert(y.subrange(0, 8) =~= spec_u64_to_le_bytes(b.seed));
    assert(x.subrange(8, 40) =~= a.maker@);
    assert(y.subrange(8, 40) =~= b.maker@);
    assert(x.subrange(40, 72) =~= a.mint_a@);
    assert(y.subrange(40, 72) =~= b.mint_a@);
    assert(x.subrange(72, 104) =~= a.mint_b@);
    assert(y.subrange(72, 104) =~= b.mint_b@);
    assert(x.subrange(104, 112) =~= spec_u64_to_le_bytes(a.receive));
    assert(y.subrange(104, 112) =~= spec_u64_to_le_bytes(b.receive));
    assert(x[112] == a.bump);
    assert(y[112] == b.bump);
    assert(a.maker =~= b.maker);
    assert(a.mint_a =~= b.mint_a);
    assert(a.mint_b =~= b.mint_b);
    assert(spec_u64_from_le_bytes(spec_u64_to_le_bytes(a.seed)) == a.seed);
    assert(spec_u64_from_le_bytes(spec_u64_to_le_bytes(b.seed)) == b.seed);
    assert(spec_u64_from_le_bytes(spec_u64_to_le_bytes(a.receive)) == a.receive);
    assert(spec_u64_from_le_bytes(spec_u64_to_le_bytes(b.receive)) == b.receive);
}

} // verus!
