//! The holding account of a wallet for a mint: recognising one that exists,
//! and asking for one that does not.

use crate::account::{Account, TOKEN_ACCOUNT_LEN};
use crate::action::Action;
use crate::address::{
    address_eq, answers, associated_token_address, find_associated_token_address, Address,
    TOKEN_PROGRAM_ID,
};
use crate::error::ProgramError;
use vstd::prelude::*;

verus! {

/// The canonical token-holding account of a wallet for a mint.
pub struct AssociatedTokenAccount;

impl AssociatedTokenAccount {
    /// Why `account` does not even look like a holding account, if it does
    /// not: the token program does not own it, or it has another length. The
    /// owner is looked at first.
    pub open spec fn misshapen(account: Account) -> Option<ProgramError> {
        if account.owner != TOKEN_PROGRAM_ID {
            Some(ProgramError::InvalidAccountOwner)
        } else if account.data@.len() != TOKEN_ACCOUNT_LEN {
            Some(ProgramError::InvalidAccountData)
        } else {
            None
        }
    }

    /// Whether `account` lies at the address `derived` for it, and if not, why
    /// not: no address could be derived, or it is another one.
    pub open spec fn located(account: Account, derived: Option<(Address, u8)>) -> Result<
        (),
        ProgramError,
    > {
        match derived {
            None => Err(ProgramError::InvalidSeeds),
            Some(pair) => if account.key != pair.0 {
                Err(ProgramError::InvalidAccountData)
            } else {
                Ok(())
            },
        }
    }

    /// Whether `account` is the holding account that lies at the address
    /// `expected`: of the right owner and length, and there.
    pub open spec fn stands_at(account: Account, expected: (Seq<u8>, u8)) -> bool {
        Self::misshapen(account) is None && account.key@ == expected.0
    }

    /// Whether `account` passes for the holding account whose derived address
    /// is `derived`, and if not, why not. The owner is looked at first, then
    /// the length, and only then the address.
    pub open spec fn checked(account: Account, derived: Option<(Address, u8)>) -> Result<
        (),
        ProgramError,
    > {
        match Self::misshapen(account) {
            Some(e) => Err(e),
            None => Self::located(account, derived),
        }
    }

    /// The request to create `account` as the holding account of `owner` for
    /// `mint`, paid for by `payer`.
    pub open spec fn creation(
        account: Account,
        mint: Account,
        payer: Account,
        owner: Account,
        system_program: Account,
        token_program: Account,
    ) -> Action {
        Action::CreateAssociatedTokenAccount {
            funding_account: payer.key,
            account: account.key,
            wallet: owner.key,
            mint: mint.key,
            system_program: system_program.key,
            token_program: token_program.key,
        }
    }

    /// What has to be done so that `account` is a holding account, given the
    /// address `derived` for it: nothing if it passes, its creation if it
    /// does not. Where no address could be derived for an account that looks
    /// like a holding account, nothing can be decided and the error stands.
    pub open spec fn ensured(
        account: Account,
        mint: Account,
        payer: Account,
        owner: Account,
        system_program: Account,
        token_program: Account,
        derived: Option<(Address, u8)>,
    ) -> Result<Seq<Action>, ProgramError> {
        match Self::checked(account, derived) {
            Ok(_) => Ok(Seq::empty()),
            Err(ProgramError::InvalidSeeds) => Err(ProgramError::InvalidSeeds),
            Err(_) => Ok(
                seq![Self::creation(account, mint, payer, owner, system_program, token_program)],
            ),
        }
    }

    /// Whether `result` is what `expected` asks for: the same refusal or the
    /// same actions.
    pub open spec fn delivers(
        result: Result<Vec<Action>, ProgramError>,
        expected: Result<Seq<Action>, ProgramError>,
    ) -> bool {
        match result {
            Ok(actions) => expected == Ok::<Seq<Action>, ProgramError>(actions@),
            Err(e) => expected == Err::<Seq<Action>, ProgramError>(e),
        }
    }

    /// Looks at the owner and the length of `account`.
    fn shaped(account: &Account) -> (result: Result<(), ProgramError>)
        ensures
            match result {
                Ok(_) => Self::misshapen(*account) is None,
                Err(e) => Self::misshapen(*account) == Some(e),
            },
    {
        let token_program: Address = TOKEN_PROGRAM_ID;
        if !account.is_owned_by(&token_program) {
            return Err(ProgramError::InvalidAccountOwner);
        }
        if account.data_len() != TOKEN_ACCOUNT_LEN {
            return Err(ProgramError::InvalidAccountData);
        }
        Ok(())
    }

    /// Holds the address of `account` against the derived one.
    fn place(account: &Account, derived: Option<(Address, u8)>) -> (result: Result<
        (),
        ProgramError,
    >)
        ensures
            result == Self::located(*account, derived),
    {
        match derived {
            None => Err(ProgramError::InvalidSeeds),
            Some(pair) => {
                if !address_eq(&account.key, &pair.0) {
                    Err(ProgramError::InvalidAccountData)
                } else {
                    Ok(())
                }
            },
        }
    }

    /// Checks `account` against the address `derived` for it.
    pub fn check_with(account: &Account, derived: Option<(Address, u8)>) -> (result: Result<
        (),
        ProgramError,
    >)
        ensures
            result == Self::checked(*account, derived),
    {
        Self::shaped(account)?;
        Self::place(account, derived)
    }

    /// Checks that `account` is the holding account of `authority` for `mint`:
    /// owned by the token program, of a holding account's length, and at the
    /// address that the three derive. The address is derived only for an
    /// account that has passed the first two checks.
    ///
    /// An account that fails one of the first two checks is refused for it.
    /// One that passes them is accepted only at its derived address; whether
    /// it lies there or not, the answer is `InvalidSeeds` where the host finds
    /// no address.
    pub fn check(
        account: &Account,
        authority: &Account,
        mint: &Account,
        token_program: &Account,
    ) -> (result: Result<(), ProgramError>)
        ensures
            exists|derived: Option<(Address, u8)>|
                answers(
                    derived,
                    associated_token_address(authority.key, token_program.key, mint.key),
                ) && result == #[trigger] Self::checked(*account, derived),
            Self::misshapen(*account) matches Some(e) ==> result == Err::<(), ProgramError>(e),
            result is Ok ==> Self::stands_at(
                *account,
                associated_token_address(authority.key, token_program.key, mint.key),
            ),
            Self::stands_at(
                *account,
                associated_token_address(authority.key, token_program.key, mint.key),
            ) ==> result is Ok || result == Err::<(), ProgramError>(ProgramError::InvalidSeeds),
            Self::misshapen(*account) is None && !Self::stands_at(
                *account,
                associated_token_address(authority.key, token_program.key, mint.key),
            ) ==> result == Err::<(), ProgramError>(ProgramError::InvalidAccountData) || result
                == Err::<(), ProgramError>(ProgramError::InvalidSeeds),
    {
        if let Err(e) = Self::shaped(account) {
            assert(Err::<(), ProgramError>(e) == Self::checked(*account, None));
            return Err(e);
        }
        let derived = find_associated_token_address(&authority.key, &token_program.key, &mint.key);
        let result = Self::place(account, derived);
        assert(result == Self::checked(*account, derived));
        assert(derived matches Some(pair) ==> (pair.0 == account.key <==> pair.0@
            == account.key@)) by {
            if let Some(pair) = derived {
                if pair.0@ == account.key@ {
                    assert(pair.0 =~= account.key);
                }
            }
        }
        result
    }

    /// The request to create `account` as the holding account of `owner` for
    /// `mint`, paid for by `payer`.
    pub fn init(
        account: &Account,
        mint: &Account,
        payer: &Account,
        owner: &Account,
        system_program: &Account,
        token_program: &Account,
    ) -> (action: Action)
        ensures
            action == Self::creation(
                *account,
                *mint,
                *payer,
                *owner,
                *system_program,
                *token_program,
            ),
    {
        Action::CreateAssociatedTokenAccount {
            funding_account: payer.key,
            account: account.key,
            wallet: owner.key,
            mint: mint.key,
            system_program: system_program.key,
            token_program: token_program.key,
        }
    }

    /// Turns the outcome of the check into what has to be done.
    fn decided(
        outcome: Result<(), ProgramError>,
        account: &Account,
        mint: &Account,
        payer: &Account,
        owner: &Account,
        system_program: &Account,
        token_program: &Account,
    ) -> (result: Result<Vec<Action>, ProgramError>)
        ensures
            match outcome {
                Ok(_) => result matches Ok(actions) && actions@ == Seq::<Action>::empty(),
                Err(ProgramError::InvalidSeeds) => result == Err::<Vec<Action>, ProgramError>(
                    ProgramError::InvalidSeeds,
                ),
                Err(_) => result matches Ok(actions) && actions@ == seq![
                    Self::creation(
                        *account,
                        *mint,
                        *payer,
                        *owner,
                        *system_program,
                        *token_program,
                    ),
                ],
            },
    {
        let mut actions: Vec<Action> = Vec::new();
        match outcome {
            Ok(_) => Ok(actions),
            Err(ProgramError::InvalidSeeds) => Err(ProgramError::InvalidSeeds),
            Err(_) => {
                actions.push(Self::init(account, mint, payer, owner, system_program, token_program));
                Ok(actions)
            },
        }
    }

    /// Decides what has to be done so that `account` is a holding account,
    /// given the address `derived` for it.
    pub fn init_if_needed_with(
        account: &Account,
        mint: &Account,
        payer: &Account,
        owner: &Account,
        system_program: &Account,
        token_program: &Account,
        derived: Option<(Address, u8)>,
    ) -> (result: Result<Vec<Action>, ProgramError>)
        ensures
            Self::delivers(
                result,
                Self::ensured(
                    *account,
                    *mint,
                    *payer,
                    *owner,
                    *system_program,
                    *token_program,
                    derived,
                ),
            ),
    {
        Self::decided(
            Self::check_with(account, derived),
            account,
            mint,
            payer,
            owner,
            system_program,
            token_program,
        )
    }

    /// Makes sure that `account` is the holding account of `owner` for `mint`:
    /// asks for nothing if it already is one, and for its creation, paid for
    /// by `payer`, if it is not.
    ///
    /// An account of another owner or length is always answered with its
    /// creation. For one that already is the holding account, every call asks
    /// for nothing, the first as the second, or is refused as `InvalidSeeds`
    /// where the host finds no address; its creation is never asked for.
    pub fn init_if_needed(
        account: &Account,
        mint: &Account,
        payer: &Account,
        owner: &Account,
        system_program: &Account,
        token_program: &Account,
    ) -> (result: Result<Vec<Action>, ProgramError>)
        ensures
            exists|derived: Option<(Address, u8)>|
                answers(derived, associated_token_address(owner.key, token_program.key, mint.key))
                    && Self::delivers(
                    result,
                    #[trigger] Self::ensured(
                        *account,
                        *mint,
                        *payer,
                        *owner,
                        *system_program,
                        *token_program,
                        derived,
                    ),
                ),
            Self::misshapen(*account) is Some ==> (result matches Ok(actions) && actions@ == seq![
                Self::creation(*account, *mint, *payer, *owner, *system_program, *token_program),
            ]),
            Self::stands_at(
                *account,
                associated_token_address(owner.key, token_program.key, mint.key),
            ) ==> (result matches Ok(actions) && actions@ == Seq::<Action>::empty()) || result
                == Err::<Vec<Action>, ProgramError>(ProgramError::InvalidSeeds),
            Self::misshapen(*account) is None && !Self::stands_at(
                *account,
                associated_token_address(owner.key, token_program.key, mint.key),
            ) ==> (result matches Ok(actions) && actions@ == seq![
                Self::creation(*account, *mint, *payer, *owner, *system_program, *token_program),
            ]) || result == Err::<Vec<Action>, ProgramError>(ProgramError::InvalidSeeds),
    {
        let checked = Self::check(account, owner, mint, token_program);
        let ghost derived = choose|derived: Option<(Address, u8)>|
            answers(derived, associated_token_address(owner.key, token_program.key, mint.key))
                && checked == #[trigger] Self::checked(*account, derived);
        let result = Self::decided(
            checked,
            account,
            mint,
            payer,
            owner,
            system_program,
            token_program,
        );
        assert(Self::delivers(
            result,
            Self::ensured(
                *account,
                *mint,
                *payer,
                *owner,
                *system_program,
                *token_program,
                derived,
            ),
        ));
        result
    }
}

} // verus!
