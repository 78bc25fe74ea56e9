//! Refund: `escrow-active -> none`. The vault is emptied into the maker's
//! holding account and closed, and the record is invalidated and released.

use crate::account::{token_balance, Account, MINT_LEN, TOKEN_ACCOUNT_LEN};
use crate::action::{Action, Authority, EscrowSigner};
use crate::address::{
    address_eq, answers, associated_token_address, escrow_address,
    find_associated_token_address, find_escrow_address, Address, SYSTEM_PROGRAM_ID,
    TOKEN_PROGRAM_ID,
};
use crate::error::ProgramError;
use crate::helper::AssociatedTokenAccount;
use crate::state::{Escrow, CLOSED_LEN};
use vstd::prelude::*;

verus! {

/// The accounts of Refund, by role.
#[derive(Clone, Copy, PartialEq, Eq, Debug)]
pub struct RefundAccounts<'a> {
    /// The maker: signs, and receives everything back.
    pub maker: &'a Account,
    /// The escrow record.
    pub escrow: &'a Account,
    /// The mint of the deposit.
    pub mint_a: &'a Account,
    /// The vault: the escrow's own holding account for the first mint.
    pub vault: &'a Account,
    /// The maker's holding account for the first mint: where the deposit goes
    /// back to. It need not exist yet and is not looked at before a Refund
    /// makes sure of it.
    pub maker_ata_a: &'a Account,
    /// The system program.
    pub system_program: &'a Account,
    /// The token program.
    pub token_program: &'a Account,
}

impl<'a> RefundAccounts<'a> {
    /// The number of accounts that Refund takes; the last one is reserved.
    pub const ARITY: usize = 8;

    /// Why the account list is refused before any address is derived, if it
    /// is: checked in this order, the count, the maker's signature, that the
    /// maker is a plain wallet, that the program owns the escrow record, and
    /// that the record has a record's length.
    pub open spec fn early_rejection(program_id: Address, accounts: Seq<Account>) -> Option<
        ProgramError,
    > {
        if accounts.len() != RefundAccounts::ARITY {
            Some(ProgramError::NotEnoughAccountKeys)
        } else if !accounts[0].is_signer {
            Some(ProgramError::MissingRequiredSignature)
        } else if accounts[0].owner != SYSTEM_PROGRAM_ID {
            Some(ProgramError::InvalidAccountOwner)
        } else if accounts[1].owner != program_id {
            Some(ProgramError::InvalidAccountOwner)
        } else if accounts[1].data@.len() != Escrow::LEN {
            Some(ProgramError::InvalidAccountData)
        } else {
            None
        }
    }

    /// The address and bump that belong to the vault: the holding account of
    /// the escrow for the first mint under the token program that was handed
    /// in.
    pub open spec fn vault_address(accounts: Seq<Account>) -> (Seq<u8>, u8) {
        associated_token_address(accounts[1].key, accounts[6].key, accounts[2].key)
    }

    /// Why the account list is refused once the early checks have passed and
    /// before the vault's address is derived, if it is, where `escrow` is the
    /// address derived from the maker and the record's nonce: the escrow's
    /// address must be the derived one; then the mint and the vault must each
    /// have the right length and owner, in this order.
    pub open spec fn middle_rejection(accounts: Seq<Account>, escrow: Option<(Address, u8)>) -> Option<
        ProgramError,
    > {
        match escrow {
            None => Some(ProgramError::InvalidSeeds),
            Some(pair) => if accounts[1].key != pair.0 {
                Some(ProgramError::InvalidAccountData)
            } else if accounts[2].data@.len() != MINT_LEN {
                Some(ProgramError::InvalidAccountData)
            } else if accounts[2].owner != TOKEN_PROGRAM_ID {
                Some(ProgramError::InvalidAccountOwner)
            } else if accounts[3].data@.len() != TOKEN_ACCOUNT_LEN {
                Some(ProgramError::InvalidAccountData)
            } else if accounts[3].owner != TOKEN_PROGRAM_ID {
                Some(ProgramError::InvalidAccountOwner)
            } else {
                None
            },
        }
    }

    /// Why the account list is refused at the last, if it is, where `vault` is
    /// the address derived for the vault: the vault's address must be the
    /// derived one, and the two services must be the system program and the
    /// token program.
    pub open spec fn last_rejection(accounts: Seq<Account>, vault: Option<(Address, u8)>) -> Option<
        ProgramError,
    > {
        match vault {
            None => Some(ProgramError::InvalidSeeds),
            Some(pair) => if accounts[3].key != pair.0 {
                Some(ProgramError::InvalidAccountData)
            } else if accounts[5].key != SYSTEM_PROGRAM_ID {
                Some(ProgramError::InvalidAccountData)
            } else if accounts[6].key != TOKEN_PROGRAM_ID {
                Some(ProgramError::InvalidAccountData)
            } else {
                None
            },
        }
    }

    /// Why the account list is refused once the early checks have passed, if
    /// it is, where `escrow` and `vault` are the addresses derived for the two:
    /// for the first of the middle checks that fails or, where none does, for
    /// the first of the last ones.
    pub open spec fn late_rejection(
        accounts: Seq<Account>,
        escrow: Option<(Address, u8)>,
        vault: Option<(Address, u8)>,
    ) -> Option<ProgramError> {
        match Self::middle_rejection(accounts, escrow) {
            Some(e) => Some(e),
            None => Self::last_rejection(accounts, vault),
        }
    }

    /// Why the account list is refused, if it is: for the first of the early
    /// checks that fails or, where none does, for the first of the late ones.
    pub open spec fn rejection(
        program_id: Address,
        accounts: Seq<Account>,
        escrow: Option<(Address, u8)>,
        vault: Option<(Address, u8)>,
    ) -> Option<ProgramError> {
        match Self::early_rejection(program_id, accounts) {
            Some(e) => Some(e),
            None => Self::late_rejection(accounts, escrow, vault),
        }
    }

    /// The accounts of the list, by role.
    pub open spec fn by_role(accounts: Seq<Account>) -> RefundAccounts<'a> {
        RefundAccounts {
            maker: &accounts[0],
            escrow: &accounts[1],
            mint_a: &accounts[2],
            vault: &accounts[3],
            maker_ata_a: &accounts[4],
            system_program: &accounts[5],
            token_program: &accounts[6],
        }
    }

    /// Whether `result` is what the refusal `rejected` asks for: that error,
    /// or, where there is none, the accounts by role.
    pub open spec fn delivers(
        result: Result<RefundAccounts<'a>, ProgramError>,
        rejected: Option<ProgramError>,
        accounts: Seq<Account>,
    ) -> bool {
        match result {
            Ok(named) => rejected is None && named == Self::by_role(accounts),
            Err(e) => rejected == Some(e),
        }
    }

    /// Runs the checks that come before the derivation and reads the record.
    fn recorded(program_id: &Address, accounts: &[Account]) -> (result: Result<
        Escrow,
        ProgramError,
    >)
        ensures
            match result {
                Ok(record) => Self::early_rejection(*program_id, accounts@) is None && record.seed
                    == Escrow::seed_of(accounts@[1].data@),
                Err(e) => Self::early_rejection(*program_id, accounts@) == Some(e),
            },
    {
        if accounts.len() != RefundAccounts::ARITY {
            return Err(ProgramError::NotEnoughAccountKeys);
        }
        let maker = &accounts[0];
        let escrow = &accounts[1];
        let system_id: Address = SYSTEM_PROGRAM_ID;
        if !maker.is_signer {
            return Err(ProgramError::MissingRequiredSignature);
        }
        if !maker.is_owned_by(&system_id) {
            return Err(ProgramError::InvalidAccountOwner);
        }
        if !escrow.is_owned_by(program_id) {
            return Err(ProgramError::InvalidAccountOwner);
        }
        Escrow::load(escrow.data.as_slice())
    }

    /// Holds the escrow against its derived address and looks at the mint and
    /// at the vault's length and owner.
    fn examined(accounts: &[Account], escrow: Option<(Address, u8)>) -> (result: Result<
        (),
        ProgramError,
    >)
        requires
            accounts@.len() == RefundAccounts::ARITY,
        ensures
            match result {
                Ok(_) => Self::middle_rejection(accounts@, escrow) is None,
                Err(e) => Self::middle_rejection(accounts@, escrow) == Some(e),
            },
    {
        let found = match escrow {
            None => {
                return Err(ProgramError::InvalidSeeds);
            },
            Some(found) => found,
        };
        let mint_a = &accounts[2];
        let vault = &accounts[3];
        let token_id: Address = TOKEN_PROGRAM_ID;
        if !address_eq(&accounts[1].key, &found.0) {
            return Err(ProgramError::InvalidAccountData);
        }
        if mint_a.data_len() != MINT_LEN {
            return Err(ProgramError::InvalidAccountData);
        }
        if !mint_a.is_owned_by(&token_id) {
            return Err(ProgramError::InvalidAccountOwner);
        }
        if vault.data_len() != TOKEN_ACCOUNT_LEN {
            return Err(ProgramError::InvalidAccountData);
        }
        if !vault.is_owned_by(&token_id) {
            return Err(ProgramError::InvalidAccountOwner);
        }
        Ok(())
    }

    /// Holds the vault against its derived address, looks at the two services
    /// and names the accounts by role.
    fn settled(accounts: &'a [Account], vault: Option<(Address, u8)>) -> (result: Result<
        RefundAccounts<'a>,
        ProgramError,
    >)
        requires
            accounts@.len() == RefundAccounts::ARITY,
        ensures
            Self::delivers(result, Self::last_rejection(accounts@, vault), accounts@),
    {
        let found = match vault {
            None => {
                return Err(ProgramError::InvalidSeeds);
            },
            Some(found) => found,
        };
        let system_program = &accounts[5];
        let token_program = &accounts[6];
        let system_id: Address = SYSTEM_PROGRAM_ID;
        let token_id: Address = TOKEN_PROGRAM_ID;
        if !address_eq(&accounts[3].key, &found.0) {
            return Err(ProgramError::InvalidAccountData);
        }
        if !address_eq(&system_program.key, &system_id) {
            return Err(ProgramError::InvalidAccountData);
        }
        if !address_eq(&token_program.key, &token_id) {
            return Err(ProgramError::InvalidAccountData);
        }
        Ok(
            RefundAccounts {
                maker: &accounts[0],
                escrow: &accounts[1],
                mint_a: &accounts[2],
                vault: &accounts[3],
                maker_ata_a: &accounts[4],
                system_program,
                token_program,
            },
        )
    }

    /// Validates the account list of Refund against the addresses derived for
    /// its escrow and for its vault, and names its accounts by role.
    pub fn try_from_with(
        program_id: &Address,
        accounts: &'a [Account],
        escrow: Option<(Address, u8)>,
        vault: Option<(Address, u8)>,
    ) -> (result: Result<RefundAccounts<'a>, ProgramError>)
        ensures
            Self::delivers(
                result,
                Self::rejection(*program_id, accounts@, escrow, vault),
                accounts@,
            ),
    {
        let _ = Self::recorded(program_id, accounts)?;
        Self::examined(accounts, escrow)?;
        Self::settled(accounts, vault)
    }

    /// Validates the account list of Refund and names its accounts by role.
    ///
    /// The escrow's address is held against the one derived from the maker's
    /// address and the nonce that the record itself names, so that no one but
    /// the maker of this escrow passes as its maker. The vault's address is
    /// held against the one derived from the escrow, the token program and the
    /// mint, so that no other holding account passes as the vault.
    ///
    /// Each address is derived only once everything before it has passed. An
    /// escrow or a vault that does not lie at its derived address is refused
    /// in any case: where the host answers for what it is, and as
    /// `InvalidSeeds` where the host gives no answer.
    pub fn try_from(program_id: &Address, accounts: &'a [Account]) -> (result: Result<
        RefundAccounts<'a>,
        ProgramError,
    >)
        ensures
            exists|escrow: Option<(Address, u8)>, vault: Option<(Address, u8)>|
                answers(
                    escrow,
                    escrow_address(
                        *program_id,
                        accounts@[0].key,
                        Escrow::seed_of(accounts@[1].data@),
                    ),
                ) && answers(vault, Self::vault_address(accounts@)) && Self::delivers(
                    result,
                    #[trigger] Self::rejection(*program_id, accounts@, escrow, vault),
                    accounts@,
                ),
            result matches Ok(named) ==> {
                &&& named == Self::by_role(accounts@)
                &&& accounts@[1].key@ == escrow_address(
                    *program_id,
                    accounts@[0].key,
                    Escrow::seed_of(accounts@[1].data@),
                ).0
                &&& accounts@[3].key@ == Self::vault_address(accounts@).0
            },
            Self::early_rejection(*program_id, accounts@) is None && accounts@[1].key@
                != escrow_address(
                *program_id,
                accounts@[0].key,
                Escrow::seed_of(accounts@[1].data@),
            ).0 ==> result == Err::<RefundAccounts<'a>, ProgramError>(
                ProgramError::InvalidAccountData,
            ) || result == Err::<RefundAccounts<'a>, ProgramError>(ProgramError::InvalidSeeds),
            accounts@[3].key@ != Self::vault_address(accounts@).0 ==> result is Err,
    {
        let record = match Self::recorded(program_id, accounts) {
            Ok(record) => record,
            Err(e) => {
                assert(Self::delivers(
                    Err(e),
                    Self::rejection(*program_id, accounts@, None, None),
                    accounts@,
                ));
                return Err(e);
            },
        };
        let escrow = find_escrow_address(program_id, &accounts[0].key, record.seed);
        if let Err(e) = Self::examined(accounts, escrow) {
            assert(Self::delivers(
                Err(e),
                Self::rejection(*program_id, accounts@, escrow, None),
                accounts@,
            ));
            return Err(e);
        }
        let vault = find_associated_token_address(
            &accounts[1].key,
            &accounts[6].key,
            &accounts[2].key,
        );
        let result = Self::settled(accounts, vault);
        assert(Self::delivers(
            result,
            Self::rejection(*program_id, accounts@, escrow, vault),
            accounts@,
        ));
        result
    }
}

/// A validated Refund.
#[derive(Clone, Copy, PartialEq, Eq, Debug)]
pub struct Refund<'a> {
    /// The accounts, by role.
    pub accounts: RefundAccounts<'a>,
}

impl<'a> Refund<'a> {
    /// The discriminator that routes an instruction to Refund.
    pub const DISCRIMINATOR: u8 = 2;

    /// The address and bump that belong to the maker's holding account for the
    /// first mint.
    pub open spec fn holding_address(accounts: Seq<Account>) -> (Seq<u8>, u8) {
        associated_token_address(accounts[0].key, accounts[6].key, accounts[2].key)
    }

    /// The validated Refund that the accounts give, with what has to be done
    /// first so that the maker has a holding account to be refunded into; or
    /// why there is none. `escrow` is the address derived for the escrow,
    /// `vault` the one derived for the vault, and `holding` the one derived
    /// for the maker's holding account.
    pub open spec fn assembled(
        program_id: Address,
        accounts: Seq<Account>,
        escrow: Option<(Address, u8)>,
        vault: Option<(Address, u8)>,
        holding: Option<(Address, u8)>,
    ) -> Result<(Refund<'a>, Seq<Action>), ProgramError> {
        match RefundAccounts::rejection(program_id, accounts, escrow, vault) {
            Some(e) => Err(e),
            None => match AssociatedTokenAccount::ensured(
                accounts[4],
                accounts[2],
                accounts[0],
                accounts[0],
                accounts[5],
                accounts[6],
                holding,
            ) {
                Err(e) => Err(e),
                Ok(actions) => Ok((Refund { accounts: RefundAccounts::by_role(accounts) }, actions)),
            },
        }
    }

    /// Whether `result` is what `expected` asks for: the same refusal, or the
    /// same Refund with the same actions.
    pub open spec fn delivers(
        result: Result<(Refund<'a>, Vec<Action>), ProgramError>,
        expected: Result<(Refund<'a>, Seq<Action>), ProgramError>,
    ) -> bool {
        match result {
            Ok(pair) => expected == Ok::<(Refund<'a>, Seq<Action>), ProgramError>(
                (pair.0, pair.1@),
            ),
            Err(e) => expected == Err::<(Refund<'a>, Seq<Action>), ProgramError>(e),
        }
    }

    /// The capability to sign as the escrow that is being refunded: the
    /// maker at hand, with the nonce and the bump that the record names.
    pub open spec fn signer(self) -> EscrowSigner {
        EscrowSigner {
            maker: self.accounts.maker.key,
            seed: Escrow::seed_of(self.accounts.escrow.data@),
            bump: Escrow::bump_of(self.accounts.escrow.data@),
        }
    }

    /// The escrow as the authority over its vault.
    pub open spec fn authority(self) -> Authority {
        Authority::Escrow { address: self.accounts.escrow.key, signer: self.signer() }
    }

    /// What the refund consists of, or why it cannot be had: the escrow's
    /// data must hold a record and the vault must be a token-holding account.
    ///
    /// The vault's whole balance, whatever it is, moves to the maker's holding
    /// account on the escrow's authority; the vault is closed in the maker's
    /// favour; the record's first byte becomes the tombstone; the record's
    /// reserved balance goes to the maker; the record's storage shrinks to the
    /// tombstone; and the record is released.
    pub open spec fn teardown(self) -> Result<Seq<Action>, ProgramError> {
        if self.accounts.escrow.data@.len() != Escrow::LEN {
            Err(ProgramError::InvalidAccountData)
        } else if !self.accounts.vault.is_token_account() {
            Err(ProgramError::InvalidAccountData)
        } else {
            Ok(
                seq![
                    Action::Transfer {
                        from: self.accounts.vault.key,
                        to: self.accounts.maker_ata_a.key,
                        authority: self.authority(),
                        amount: token_balance(self.accounts.vault.data@),
                    },
                    Action::CloseAccount {
                        account: self.accounts.vault.key,
                        destination: self.accounts.maker.key,
                        authority: self.authority(),
                    },
                    Action::Tombstone { account: self.accounts.escrow.key },
                    Action::ReclaimLamports {
                        from: self.accounts.escrow.key,
                        to: self.accounts.maker.key,
                    },
                    Action::Resize { account: self.accounts.escrow.key, new_len: CLOSED_LEN },
                    Action::Close { account: self.accounts.escrow.key },
                ],
            )
        }
    }

    /// Validates a Refund against the addresses derived for its escrow, for
    /// its vault and for the maker's holding account and, if it stands, says
    /// what has to be done first so that the maker has a holding account.
    pub fn try_from_with(
        program_id: &Address,
        accounts: &'a [Account],
        escrow: Option<(Address, u8)>,
        vault: Option<(Address, u8)>,
        holding: Option<(Address, u8)>,
    ) -> (result: Result<(Refund<'a>, Vec<Action>), ProgramError>)
        ensures
            Self::delivers(
                result,
                Self::assembled(*program_id, accounts@, escrow, vault, holding),
            ),
    {
        let named = RefundAccounts::try_from_with(program_id, accounts, escrow, vault)?;
        let actions = AssociatedTokenAccount::init_if_needed_with(
            named.maker_ata_a,
            named.mint_a,
            named.maker,
            named.maker,
            named.system_program,
            named.token_program,
            holding,
        )?;
        Ok((Refund { accounts: named }, actions))
    }

    /// Validates a Refund and, if it stands, says what has to be done first so
    /// that the maker has a holding account: nothing where one exists, its
    /// creation at the maker's expense where none does.
    ///
    /// A Refund that stands has its escrow and its vault at their derived
    /// addresses. One whose escrow or vault lies elsewhere is refused in any
    /// case.
    pub fn try_from(program_id: &Address, accounts: &'a [Account]) -> (result: Result<
        (Refund<'a>, Vec<Action>),
        ProgramError,
    >)
        ensures
            exists|
                escrow: Option<(Address, u8)>,
                vault: Option<(Address, u8)>,
                holding: Option<(Address, u8)>,
            |
                answers(
                    escrow,
                    escrow_address(
                        *program_id,
                        accounts@[0].key,
                        Escrow::seed_of(accounts@[1].data@),
                    ),
                ) && answers(vault, RefundAccounts::vault_address(accounts@)) && answers(
                    holding,
                    Self::holding_address(accounts@),
                ) && Self::delivers(
                    result,
                    #[trigger] Self::assembled(*program_id, accounts@, escrow, vault, holding),
                ),
            result matches Ok(pair) ==> {
                &&& pair.0.accounts == RefundAccounts::by_role(accounts@)
                &&& accounts@[1].key@ == escrow_address(
                    *program_id,
                    accounts@[0].key,
                    Escrow::seed_of(accounts@[1].data@),
                ).0
                &&& accounts@[3].key@ == RefundAccounts::vault_address(accounts@).0
            },
            RefundAccounts::early_rejection(*program_id, accounts@) is None && accounts@[1].key@
                != escrow_address(
                *program_id,
                accounts@[0].key,
                Escrow::seed_of(accounts@[1].data@),
            ).0 ==> result == Err::<(Refund<'a>, Vec<Action>), ProgramError>(
                ProgramError::InvalidAccountData,
            ) || result == Err::<(Refund<'a>, Vec<Action>), ProgramError>(
                ProgramError::InvalidSeeds,
            ),
            accounts@[3].key@ != RefundAccounts::vault_address(accounts@).0 ==> result is Err,
    {
        let validated = RefundAccounts::try_from(program_id, accounts);
        let ghost (escrow, vault) = choose|
            escrow: Option<(Address, u8)>,
            vault: Option<(Address, u8)>,
        |
            answers(
                escrow,
                escrow_address(*program_id, accounts@[0].key, Escrow::seed_of(accounts@[1].data@)),
            ) && answers(vault, RefundAccounts::vault_address(accounts@))
                && RefundAccounts::delivers(
                validated,
                #[trigger] RefundAccounts::rejection(*program_id, accounts@, escrow, vault),
                accounts@,
            );
        let named = match validated {
            Ok(named) => named,
            Err(e) => {
                assert(Self::delivers(
                    Err(e),
                    Self::assembled(*program_id, accounts@, escrow, vault, None),
                ));
                return Err(e);
            },
        };
        let ensured = AssociatedTokenAccount::init_if_needed(
            named.maker_ata_a,
            named.mint_a,
            named.maker,
            named.maker,
            named.system_program,
            named.token_program,
        );
        let ghost holding = choose|derived: Option<(Address, u8)>|
            answers(derived, Self::holding_address(accounts@))
                && AssociatedTokenAccount::delivers(
                ensured,
                #[trigger] AssociatedTokenAccount::ensured(
                    accounts@[4],
                    accounts@[2],
                    accounts@[0],
                    accounts@[0],
                    accounts@[5],
                    accounts@[6],
                    derived,
                ),
            );
        let result = match ensured {
            Ok(actions) => Ok((Refund { accounts: named }, actions)),
            Err(e) => Err(e),
        };
        assert(Self::delivers(
            result,
            Self::assembled(*program_id, accounts@, escrow, vault, holding),
        ));
        result
    }

    /// Says what the refund consists of.
    pub fn process(&self) -> (result: Result<Vec<Action>, ProgramError>)
        ensures
            match result {
                Ok(actions) => self.teardown() == Ok::<Seq<Action>, ProgramError>(actions@),
                Err(e) => self.teardown() == Err::<Seq<Action>, ProgramError>(e),
            },
    {
        let record = Escrow::load(self.accounts.escrow.data.as_slice())?;
        let amount: u64 = self.accounts.vault.token_amount()?;
        let signer = EscrowSigner {
            maker: self.accounts.maker.key,
            seed: record.seed,
            bump: record.bump,
        };
        let authority = Authority::Escrow { address: self.accounts.escrow.key, signer };
        let mut actions: Vec<Action> = Vec::new();
        actions.push(
            Action::Transfer {
                from: self.accounts.vault.key,
                to: self.accounts.maker_ata_a.key,
                authority,
                amount,
            },
        );
        actions.push(
            Action::CloseAccount {
                account: self.accounts.vault.key,
                destination: self.accounts.maker.key,
                authority,
            },
        );
        actions.push(Action::Tombstone { account: self.accounts.escrow.key });
        actions.push(
            Action::ReclaimLamports {
                from: self.accounts.escrow.key,
                to: self.accounts.maker.key,
            },
        );
        actions.push(Action::Resize { account: self.accounts.escrow.key, new_len: CLOSED_LEN });
        actions.push(Action::Close { account: self.accounts.escrow.key });
        assert(actions@ =~= self.teardown()->Ok_0);
        Ok(actions)
    }
}

} // verus!
