//! Make: `none -> escrow-active`. The maker names the terms, the escrow record
//! and its vault come into being, and the deposit moves into the vault.

use crate::account::{Account, MINT_LEN};
use crate::action::{Action, Authority, EscrowSigner};
use crate::address::{
    address_eq, answers, associated_token_address, escrow_address,
    find_associated_token_address, find_escrow_address, Address, TOKEN_PROGRAM_ID,
};
use crate::error::ProgramError;
use crate::state::Escrow;
use vstd::bytes::{spec_u64_from_le_bytes, u64_from_le_bytes};
use vstd::prelude::*;
use vstd::slice::slice_subrange;

verus! {

/// The payload of Make: three integers, little-endian, with no padding.
#[derive(Clone, Copy, PartialEq, Eq, Structural, Debug)]
pub struct MakeInstructionData {
    /// The maker's nonce for this escrow.
    pub seed: u64,
    /// How much of the second mint the maker asks for.
    pub receive: u64,
    /// How much of the first mint the maker deposits. A payload that parses
    /// never names zero.
    pub amount: u64,
}

impl MakeInstructionData {
    /// The length of the payload.
    pub const LEN: usize = 24;

    /// The nonce that a payload names: its first eight bytes.
    pub open spec fn seed_of(data: Seq<u8>) -> u64 {
        spec_u64_from_le_bytes(data.subrange(0, 8))
    }

    /// The payload that `data` holds, or why it holds none: it is not 24 bytes
    /// long, or it asks for a deposit of nothing.
    pub open spec fn parsed(data: Seq<u8>) -> Result<MakeInstructionData, ProgramError> {
        if data.len() != MakeInstructionData::LEN {
            Err(ProgramError::InvalidInstructionData)
        } else if spec_u64_from_le_bytes(data.subrange(16, 24)) == 0 {
            Err(ProgramError::InvalidInstructionData)
        } else {
            Ok(
                MakeInstructionData {
                    seed: Self::seed_of(data),
                    receive: spec_u64_from_le_bytes(data.subrange(8, 16)),
                    amount: spec_u64_from_le_bytes(data.subrange(16, 24)),
                },
            )
        }
    }

    /// Parses the payload of Make.
    pub fn try_from(data: &[u8]) -> (result: Result<MakeInstructionData, ProgramError>)
        ensures
            result == Self::parsed(data@),
    {
        if data.len() != MakeInstructionData::LEN {
            return Err(ProgramError::InvalidInstructionData);
        }
        let seed: u64 = u64_from_le_bytes(slice_subrange(data, 0, 8));
        let receive: u64 = u64_from_le_bytes(slice_subrange(data, 8, 16));
        let amount: u64 = u64_from_le_bytes(slice_subrange(data, 16, 24));
        if amount == 0 {
            return Err(ProgramError::InvalidInstructionData);
        }
        Ok(MakeInstructionData { seed, receive, amount })
    }
}

/// The accounts of Make, by role.
#[derive(Clone, Copy, PartialEq, Eq, Debug)]
pub struct MakeAccount<'a> {
    /// The depositor: signs and pays.
    pub maker: &'a Account,
    /// The slot of the escrow record.
    pub escrow: &'a Account,
    /// The mint of the deposit.
    pub mint_a: &'a Account,
    /// The mint the maker wants in return.
    pub mint_b: &'a Account,
    /// The maker's holding account for the first mint: where the deposit comes from.
    pub maker_ata_a: &'a Account,
    /// The slot of the vault: where the escrow's own holding account for the
    /// first mint is to be.
    pub vault: &'a Account,
    /// The system program.
    pub system_program: &'a Account,
    /// The token program.
    pub token_program: &'a Account,
}

impl<'a> MakeAccount<'a> {
    /// The number of accounts that Make takes; the last one is reserved.
    pub const ARITY: usize = 9;

    /// Why the account list is refused, if it is: checked in this order, the
    /// count, the maker's signature, then of each mint in turn the length and
    /// the owner.
    pub open spec fn rejection(accounts: Seq<Account>) -> Option<ProgramError> {
        if accounts.len() != MakeAccount::ARITY {
            Some(ProgramError::NotEnoughAccountKeys)
        } else if !accounts[0].is_signer {
            Some(ProgramError::MissingRequiredSignature)
        } else if accounts[2].data@.len() != MINT_LEN {
            Some(ProgramError::InvalidAccountData)
        } else if accounts[2].owner != TOKEN_PROGRAM_ID {
            Some(ProgramError::InvalidAccountOwner)
        } else if accounts[3].data@.len() != MINT_LEN {
            Some(ProgramError::InvalidAccountData)
        } else if accounts[3].owner != TOKEN_PROGRAM_ID {
            Some(ProgramError::InvalidAccountOwner)
        } else {
            None
        }
    }

    /// The accounts of the list, by role.
    pub open spec fn by_role(accounts: Seq<Account>) -> MakeAccount<'a> {
        MakeAccount {
            maker: &accounts[0],
            escrow: &accounts[1],
            mint_a: &accounts[2],
            mint_b: &accounts[3],
            maker_ata_a: &accounts[4],
            vault: &accounts[5],
            system_program: &accounts[6],
            token_program: &accounts[7],
        }
    }

    /// Validates the account list of Make and names its accounts by role.
    pub fn try_from(accounts: &'a [Account]) -> (result: Result<MakeAccount<'a>, ProgramError>)
        ensures
            match result {
                Ok(named) => Self::rejection(accounts@) is None && named == Self::by_role(
                    accounts@,
                ),
                Err(e) => Self::rejection(accounts@) == Some(e),
            },
    {
        if accounts.len() != MakeAccount::ARITY {
            return Err(ProgramError::NotEnoughAccountKeys);
        }
        let maker = &accounts[0];
        let mint_a = &accounts[2];
        let mint_b = &accounts[3];
        let token_id: Address = TOKEN_PROGRAM_ID;
        if !maker.is_signer {
            return Err(ProgramError::MissingRequiredSignature);
        }
        if mint_a.data_len() != MINT_LEN {
            return Err(ProgramError::InvalidAccountData);
        }
        if !mint_a.is_owned_by(&token_id) {
            return Err(ProgramError::InvalidAccountOwner);
        }
        if mint_b.data_len() != MINT_LEN {
            return Err(ProgramError::InvalidAccountData);
        }
        if !mint_b.is_owned_by(&token_id) {
            return Err(ProgramError::InvalidAccountOwner);
        }
        Ok(
            MakeAccount {
                maker,
                escrow: &accounts[1],
                mint_a,
                mint_b,
                maker_ata_a: &accounts[4],
                vault: &accounts[5],
                system_program: &accounts[6],
                token_program: &accounts[7],
            },
        )
    }
}

/// A validated Make.
#[derive(Clone, Copy, PartialEq, Eq, Debug)]
pub struct Make<'a> {
    /// The accounts, by role.
    pub accounts: MakeAccount<'a>,
    /// The terms.
    pub instruction_data: MakeInstructionData,
    /// The bump that completes the escrow's address.
    pub bump: u8,
}

impl<'a> Make<'a> {
    /// The discriminator that routes an instruction to Make.
    pub const DISCRIMINATOR: u8 = 0;

    /// Why a Make is refused before any address is derived, if it is: because
    /// of its accounts, then because of its payload, then because the escrow
    /// slot already holds a record of this program.
    pub open spec fn early_rejection(
        program_id: Address,
        data: Seq<u8>,
        accounts: Seq<Account>,
    ) -> Option<ProgramError> {
        match MakeAccount::rejection(accounts) {
            Some(e) => Some(e),
            None => match MakeInstructionData::parsed(data) {
                Err(e) => Some(e),
                Ok(_) => if accounts[1].owner == program_id {
                    Some(ProgramError::AccountAlreadyInitialized)
                } else {
                    None
                },
            },
        }
    }

    /// The address and bump that belong to the escrow that is being made.
    pub open spec fn escrow_slot_address(
        program_id: Address,
        data: Seq<u8>,
        accounts: Seq<Account>,
    ) -> (Seq<u8>, u8) {
        escrow_address(program_id, accounts[0].key, MakeInstructionData::seed_of(data))
    }

    /// The address and bump that belong to the vault: the holding account of
    /// the escrow for the first mint under the token program that was handed
    /// in.
    pub open spec fn vault_address(accounts: Seq<Account>) -> (Seq<u8>, u8) {
        associated_token_address(accounts[1].key, accounts[7].key, accounts[2].key)
    }

    /// The validated Make that the payload and the accounts give, where
    /// `escrow` is the address derived for the escrow of the maker with the
    /// payload's nonce and `vault` the address derived for its vault; or why
    /// there is none.
    ///
    /// After the early checks the escrow slot is held against its derived
    /// address, and then the vault slot against its own: each must lie where
    /// its seeds put it. The bump is the one derived for the escrow.
    pub open spec fn assembled(
        program_id: Address,
        data: Seq<u8>,
        accounts: Seq<Account>,
        escrow: Option<(Address, u8)>,
        vault: Option<(Address, u8)>,
    ) -> Result<Make<'a>, ProgramError> {
        match Self::early_rejection(program_id, data, accounts) {
            Some(e) => Err(e),
            None => match escrow {
                None => Err(ProgramError::InvalidSeeds),
                Some(pair) => if accounts[1].key != pair.0 {
                    Err(ProgramError::InvalidAccountData)
                } else {
                    match vault {
                        None => Err(ProgramError::InvalidSeeds),
                        Some(slot) => if accounts[5].key != slot.0 {
                            Err(ProgramError::InvalidAccountData)
                        } else {
                            Ok(
                                Make {
                                    accounts: MakeAccount::by_role(accounts),
                                    instruction_data: MakeInstructionData::parsed(data)->Ok_0,
                                    bump: pair.1,
                                },
                            )
                        },
                    }
                },
            },
        }
    }

    /// The capability to sign as the escrow that is being made.
    pub open spec fn signer(self) -> EscrowSigner {
        EscrowSigner {
            maker: self.accounts.maker.key,
            seed: self.instruction_data.seed,
            bump: self.bump,
        }
    }

    /// The record that Make persists.
    pub open spec fn record(self) -> Escrow {
        Escrow {
            seed: self.instruction_data.seed,
            maker: self.accounts.maker.key,
            mint_a: self.accounts.mint_a.key,
            mint_b: self.accounts.mint_b.key,
            receive: self.instruction_data.receive,
            bump: self.bump,
        }
    }

    /// What brings the escrow into being: first its record's storage, of the
    /// record's length, owned by the program, paid for by the maker and signed
    /// for by the escrow itself; then the vault, as the escrow's holding
    /// account for the first mint, paid for by the maker.
    pub open spec fn creation(self, program_id: Address) -> Seq<Action> {
        seq![
            Action::CreateAccount {
                from: self.accounts.maker.key,
                to: self.accounts.escrow.key,
                space: Escrow::LEN as u64,
                owner: program_id,
                signer: self.signer(),
            },
            Action::CreateAssociatedTokenAccount {
                funding_account: self.accounts.maker.key,
                account: self.accounts.vault.key,
                wallet: self.accounts.escrow.key,
                mint: self.accounts.mint_a.key,
                system_program: self.accounts.system_program.key,
                token_program: self.accounts.token_program.key,
            },
        ]
    }

    /// What completes Make: the record is written, then the deposit moves from
    /// the maker's holding account into the vault, on the maker's own
    /// authority.
    pub open spec fn deposit(self) -> Seq<Action> {
        seq![
            Action::WriteRecord { account: self.accounts.escrow.key, record: self.record() },
            Action::Transfer {
                from: self.accounts.maker_ata_a.key,
                to: self.accounts.vault.key,
                authority: Authority::Wallet { address: self.accounts.maker.key },
                amount: self.instruction_data.amount,
            },
        ]
    }

    /// Whether `result` is what `expected` asks for: the same refusal, or the
    /// same Make together with the actions that bring its escrow into being.
    pub open spec fn delivers(
        result: Result<(Make<'a>, Vec<Action>), ProgramError>,
        expected: Result<Make<'a>, ProgramError>,
        program_id: Address,
    ) -> bool {
        match result {
            Ok(pair) => expected == Ok::<Make<'a>, ProgramError>(pair.0) && pair.1@
                == pair.0.creation(program_id),
            Err(e) => expected == Err::<Make<'a>, ProgramError>(e),
        }
    }

    /// Runs the checks that come before the derivation.
    fn validated(program_id: &Address, data: &[u8], accounts: &'a [Account]) -> (result: Result<
        (MakeAccount<'a>, MakeInstructionData),
        ProgramError,
    >)
        ensures
            match result {
                Ok(pair) => {
                    &&& Self::early_rejection(*program_id, data@, accounts@) is None
                    &&& pair.0 == MakeAccount::by_role(accounts@)
                    &&& MakeInstructionData::parsed(data@) == Ok::<
                        MakeInstructionData,
                        ProgramError,
                    >(pair.1)
                },
                Err(e) => Self::early_rejection(*program_id, data@, accounts@) == Some(e),
            },
    {
        let named = MakeAccount::try_from(accounts)?;
        let terms = MakeInstructionData::try_from(data)?;
        if named.escrow.is_owned_by(program_id) {
            return Err(ProgramError::AccountAlreadyInitialized);
        }
        Ok((named, terms))
    }

    /// Holds the escrow slot against its derived address and takes the bump.
    fn anchored(named: &MakeAccount<'a>, escrow: Option<(Address, u8)>) -> (result: Result<
        u8,
        ProgramError,
    >)
        ensures
            match result {
                Ok(bump) => escrow matches Some(found) && named.escrow.key == found.0 && bump
                    == found.1,
                Err(e) => match escrow {
                    None => e == ProgramError::InvalidSeeds,
                    Some(found) => named.escrow.key != found.0 && e
                        == ProgramError::InvalidAccountData,
                },
            },
    {
        match escrow {
            None => Err(ProgramError::InvalidSeeds),
            Some(found) => {
                if !address_eq(&named.escrow.key, &found.0) {
                    Err(ProgramError::InvalidAccountData)
                } else {
                    Ok(found.1)
                }
            },
        }
    }

    /// Holds the vault slot against its derived address and says what brings
    /// the escrow into being.
    fn settled(
        program_id: &Address,
        named: MakeAccount<'a>,
        terms: MakeInstructionData,
        bump: u8,
        vault: Option<(Address, u8)>,
    ) -> (result: Result<(Make<'a>, Vec<Action>), ProgramError>)
        ensures
            match result {
                Ok(pair) => {
                    &&& vault matches Some(found) && named.vault.key == found.0
                    &&& pair.0 == (Make { accounts: named, instruction_data: terms, bump })
                    &&& pair.1@ == pair.0.creation(*program_id)
                },
                Err(e) => match vault {
                    None => e == ProgramError::InvalidSeeds,
                    Some(found) => named.vault.key != found.0 && e
                        == ProgramError::InvalidAccountData,
                },
            },
    {
        let found = match vault {
            None => {
                return Err(ProgramError::InvalidSeeds);
            },
            Some(found) => found,
        };
        if !address_eq(&named.vault.key, &found.0) {
            return Err(ProgramError::InvalidAccountData);
        }
        let make = Make { accounts: named, instruction_data: terms, bump };
        let signer = EscrowSigner { maker: named.maker.key, seed: terms.seed, bump };
        let mut actions: Vec<Action> = Vec::new();
        actions.push(
            Action::CreateAccount {
                from: named.maker.key,
                to: named.escrow.key,
                space: Escrow::LEN as u64,
                owner: *program_id,
                signer,
            },
        );
        actions.push(
            Action::CreateAssociatedTokenAccount {
                funding_account: named.maker.key,
                account: named.vault.key,
                wallet: named.escrow.key,
                mint: named.mint_a.key,
                system_program: named.system_program.key,
                token_program: named.token_program.key,
            },
        );
        assert(actions@ =~= make.creation(*program_id));
        Ok((make, actions))
    }

    /// Validates a Make against the addresses derived for its escrow and for
    /// its vault and, if it stands, says what brings the escrow into being.
    pub fn try_from_with(
        program_id: &Address,
        data: &[u8],
        accounts: &'a [Account],
        escrow: Option<(Address, u8)>,
        vault: Option<(Address, u8)>,
    ) -> (result: Result<(Make<'a>, Vec<Action>), ProgramError>)
        ensures
            Self::delivers(
                result,
                Self::assembled(*program_id, data@, accounts@, escrow, vault),
                *program_id,
            ),
    {
        let (named, terms) = Self::validated(program_id, data, accounts)?;
        let bump = Self::anchored(&named, escrow)?;
        Self::settled(program_id, named, terms, bump, vault)
    }

    /// Validates a Make: the accounts, then the payload, then the escrow slot,
    /// which must be free and must lie at the address derived from the maker
    /// and the payload's nonce, then the vault slot, which must lie at the
    /// address derived from the escrow, the token program and the first mint.
    /// If the Make stands, says what brings the escrow into being.
    ///
    /// Each address is derived only once everything before it has passed. A
    /// Make that stands is fixed by what it was handed: its accounts are those
    /// of the list by role, its terms are those of the payload, and its bump
    /// is the one that belongs to the maker and the nonce, so that two Makes
    /// of the same maker with the same nonce sign with the same seeds.
    pub fn try_from(program_id: &Address, data: &[u8], accounts: &'a [Account]) -> (result: Result<
        (Make<'a>, Vec<Action>),
        ProgramError,
    >)
        ensures
            exists|escrow: Option<(Address, u8)>, vault: Option<(Address, u8)>|
                answers(escrow, Self::escrow_slot_address(*program_id, data@, accounts@)) && answers(
                    vault,
                    Self::vault_address(accounts@),
                ) && Self::delivers(
                    result,
                    #[trigger] Self::assembled(*program_id, data@, accounts@, escrow, vault),
                    *program_id,
                ),
            result matches Ok(pair) ==> {
                &&& pair.0.accounts == MakeAccount::by_role(accounts@)
                &&& MakeInstructionData::parsed(data@) == Ok::<
                    MakeInstructionData,
                    ProgramError,
                >(pair.0.instruction_data)
                &&& (accounts@[1].key@, pair.0.bump) == Self::escrow_slot_address(
                    *program_id,
                    data@,
                    accounts@,
                )
                &&& accounts@[5].key@ == Self::vault_address(accounts@).0
                &&& pair.0.signer().signs_for(*program_id, accounts@[1].key)
                &&& pair.1@ == pair.0.creation(*program_id)
            },
            accounts@[1].key@ != Self::escrow_slot_address(*program_id, data@, accounts@).0
                ==> result is Err,
            accounts@[5].key@ != Self::vault_address(accounts@).0 ==> result is Err,
    {
        let (named, terms) = match Self::validated(program_id, data, accounts) {
            Ok(pair) => pair,
            Err(e) => {
                assert(Self::delivers(
                    Err(e),
                    Self::assembled(*program_id, data@, accounts@, None, None),
                    *program_id,
                ));
                return Err(e);
            },
        };
        let escrow = find_escrow_address(program_id, &named.maker.key, terms.seed);
        let bump = match Self::anchored(&named, escrow) {
            Ok(bump) => bump,
            Err(e) => {
                assert(Self::delivers(
                    Err(e),
                    Self::assembled(*program_id, data@, accounts@, escrow, None),
                    *program_id,
                ));
                return Err(e);
            },
        };
        let vault = find_associated_token_address(
            &named.escrow.key,
            &named.token_program.key,
            &named.mint_a.key,
        );
        let result = Self::settled(program_id, named, terms, bump, vault);
        assert(Self::delivers(
            result,
            Self::assembled(*program_id, data@, accounts@, escrow, vault),
            *program_id,
        ));
        result
    }

    /// Says what completes Make: the writing of the record and the deposit.
    pub fn process(&self) -> (actions: Vec<Action>)
        ensures
            actions@ == self.deposit(),
    {
        let record = Escrow {
            seed: self.instruction_data.seed,
            maker: self.accounts.maker.key,
            mint_a: self.accounts.mint_a.key,
            mint_b: self.accounts.mint_b.key,
            receive: self.instruction_data.receive,
            bump: self.bump,
        };
        let mut actions: Vec<Action> = Vec::new();
        actions.push(Action::WriteRecord { account: self.accounts.escrow.key, record });
        actions.push(
            Action::Transfer {
                from: self.accounts.maker_ata_a.key,
                to: self.accounts.vault.key,
                authority: Authority::Wallet { address: self.accounts.maker.key },
                amount: self.instruction_data.amount,
            },
        );
        assert(actions@ =~= self.deposit());
        actions
    }
}

} // verus!
