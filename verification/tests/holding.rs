use escrow::{
    Account, Action, Address, AssociatedTokenAccount, ProgramError, SYSTEM_PROGRAM_ID,
    TOKEN_ACCOUNT_LEN, TOKEN_PROGRAM_ID,
};

const WALLET: Address = [1u8; 32];
const MINT: Address = [2u8; 32];
const HOLDING: Address = [3u8; 32];
const ELSEWHERE: Address = [4u8; 32];

fn plain(key: Address, owner: Address, len: usize) -> Account {
    Account { key, owner, lamports: 1, data: vec![0u8; len], is_signer: false }
}

fn wallet() -> Account {
    Account { key: WALLET, owner: SYSTEM_PROGRAM_ID, lamports: 10, data: vec![], is_signer: true }
}

fn mint() -> Account {
    plain(MINT, TOKEN_PROGRAM_ID, 82)
}

fn system_program() -> Account {
    plain(SYSTEM_PROGRAM_ID, [0xaa; 32], 14)
}

fn token_program() -> Account {
    plain(TOKEN_PROGRAM_ID, [0xbb; 32], 36)
}

fn existing_holding() -> Account {
    plain(HOLDING, TOKEN_PROGRAM_ID, TOKEN_ACCOUNT_LEN)
}

fn absent_holding() -> Account {
    plain(HOLDING, SYSTEM_PROGRAM_ID, 0)
}

fn creation() -> Action {
    Action::CreateAssociatedTokenAccount {
        funding_account: WALLET,
        account: HOLDING,
        wallet: WALLET,
        mint: MINT,
        system_program: SYSTEM_PROGRAM_ID,
        token_program: TOKEN_PROGRAM_ID,
    }
}

#[test]
fn check_accepts_a_holding_account_at_its_derived_address() {
    assert_eq!(AssociatedTokenAccount::check_with(&existing_holding(), Some((HOLDING, 255))), Ok(()));
    assert_eq!(AssociatedTokenAccount::check_with(&existing_holding(), Some((HOLDING, 0))), Ok(()));
}

#[test]
fn check_refuses_a_foreign_owner_first() {
    let account = plain(ELSEWHERE, SYSTEM_PROGRAM_ID, 0);
    assert_eq!(
        AssociatedTokenAccount::check_with(&account, Some((HOLDING, 255))),
        Err(ProgramError::InvalidAccountOwner)
    );
    assert_eq!(
        AssociatedTokenAccount::check_with(&account, None),
        Err(ProgramError::InvalidAccountOwner)
    );
}

#[test]
fn check_refuses_a_wrong_length_second() {
    for len in [0usize, 82, 164, 166] {
        let account = plain(ELSEWHERE, TOKEN_PROGRAM_ID, len);
        assert_eq!(
            AssociatedTokenAccount::check_with(&account, Some((HOLDING, 255))),
            Err(ProgramError::InvalidAccountData)
        );
        assert_eq!(
            AssociatedTokenAccount::check_with(&account, None),
            Err(ProgramError::InvalidAccountData)
        );
    }
}

#[test]
fn check_refuses_another_address_last() {
    assert_eq!(
        AssociatedTokenAccount::check_with(&existing_holding(), Some((ELSEWHERE, 255))),
        Err(ProgramError::InvalidAccountData)
    );
    let mut near = HOLDING;
    near[31] ^= 1;
    assert_eq!(
        AssociatedTokenAccount::check_with(&existing_holding(), Some((near, 255))),
        Err(ProgramError::InvalidAccountData)
    );
}

#[test]
fn check_without_a_derived_address_cannot_decide() {
    assert_eq!(
        AssociatedTokenAccount::check_with(&existing_holding(), None),
        Err(ProgramError::InvalidSeeds)
    );
}

#[test]
fn check_does_not_derive_for_what_is_no_holding_account() {
    let absent = absent_holding();
    assert_eq!(
        AssociatedTokenAccount::check(&absent, &wallet(), &mint(), &token_program()),
        Err(ProgramError::InvalidAccountOwner)
    );
    let short = plain(HOLDING, TOKEN_PROGRAM_ID, 82);
    assert_eq!(
        AssociatedTokenAccount::check(&short, &wallet(), &mint(), &token_program()),
        Err(ProgramError::InvalidAccountData)
    );
}

#[test]
fn check_holds_the_account_against_the_hosts_answer() {
    let derived = pinocchio::pubkey::try_find_program_address(
        &[&WALLET, &TOKEN_PROGRAM_ID, &MINT],
        &pinocchio_associated_token_account::ID,
    );
    let account = existing_holding();
    assert_eq!(
        AssociatedTokenAccount::check(&account, &wallet(), &mint(), &token_program()),
        AssociatedTokenAccount::check_with(&account, derived)
    );
}

#[test]
fn init_asks_for_the_owners_holding_account_at_the_payers_expense() {
    let payer = Account { key: [9u8; 32], ..wallet() };
    assert_eq!(
        AssociatedTokenAccount::init(
            &absent_holding(),
            &mint(),
            &payer,
            &wallet(),
            &system_program(),
            &token_program()
        ),
        Action::CreateAssociatedTokenAccount {
            funding_account: [9u8; 32],
            account: HOLDING,
            wallet: WALLET,
            mint: MINT,
            system_program: SYSTEM_PROGRAM_ID,
            token_program: TOKEN_PROGRAM_ID,
        }
    );
}

#[test]
fn ensure_asks_for_nothing_where_the_account_exists() {
    assert_eq!(
        AssociatedTokenAccount::init_if_needed_with(
            &existing_holding(),
            &mint(),
            &wallet(),
            &wallet(),
            &system_program(),
            &token_program(),
            Some((HOLDING, 255)),
        ),
        Ok(vec![])
    );
}

#[test]
fn ensure_is_idempotent_on_an_existing_account() {
    let account = existing_holding();
    let before = account.clone();
    for _ in 0..2 {
        assert_eq!(
            AssociatedTokenAccount::init_if_needed_with(
                &account,
                &mint(),
                &wallet(),
                &wallet(),
                &system_program(),
                &token_program(),
                Some((HOLDING, 255)),
            ),
            Ok(vec![])
        );
        assert_eq!(account, before);
    }
}

#[test]
fn ensure_asks_for_creation_where_the_account_is_absent() {
    assert_eq!(
        AssociatedTokenAccount::init_if_needed_with(
            &absent_holding(),
            &mint(),
            &wallet(),
            &wallet(),
            &system_program(),
            &token_program(),
            Some((HOLDING, 255)),
        ),
        Ok(vec![creation()])
    );
    assert_eq!(
        AssociatedTokenAccount::init_if_needed_with(
            &absent_holding(),
            &mint(),
            &wallet(),
            &wallet(),
            &system_program(),
            &token_program(),
            None,
        ),
        Ok(vec![creation()])
    );
}

#[test]
fn ensure_asks_for_creation_where_length_or_address_is_wrong() {
    let short = plain(HOLDING, TOKEN_PROGRAM_ID, 82);
    assert_eq!(
        AssociatedTokenAccount::init_if_needed_with(
            &short,
            &mint(),
            &wallet(),
            &wallet(),
            &system_program(),
            &token_program(),
            Some((HOLDING, 255)),
        ),
        Ok(vec![creation()])
    );
    assert_eq!(
        AssociatedTokenAccount::init_if_needed_with(
            &existing_holding(),
            &mint(),
            &wallet(),
            &wallet(),
            &system_program(),
            &token_program(),
            Some((ELSEWHERE, 255)),
        ),
        Ok(vec![creation()])
    );
}

#[test]
fn ensure_surfaces_a_failed_derivation() {
    assert_eq!(
        AssociatedTokenAccount::init_if_needed_with(
            &existing_holding(),
            &mint(),
            &wallet(),
            &wallet(),
            &system_program(),
            &token_program(),
            None,
        ),
        Err(ProgramError::InvalidSeeds)
    );
}

#[test]
fn ensure_creates_an_absent_account_without_deriving() {
    assert_eq!(
        AssociatedTokenAccount::init_if_needed(
            &absent_holding(),
            &mint(),
            &wallet(),
            &wallet(),
            &system_program(),
            &token_program(),
        ),
        Ok(vec![creation()])
    );
}

#[test]
fn ensure_follows_the_hosts_answer() {
    let derived = pinocchio::pubkey::try_find_program_address(
        &[&WALLET, &TOKEN_PROGRAM_ID, &MINT],
        &pinocchio_associated_token_account::ID,
    );
    assert_eq!(
        AssociatedTokenAccount::init_if_needed(
            &existing_holding(),
            &mint(),
            &wallet(),
            &wallet(),
            &system_program(),
            &token_program(),
        ),
        AssociatedTokenAccount::init_if_needed_with(
            &existing_holding(),
            &mint(),
            &wallet(),
            &wallet(),
            &system_program(),
            &token_program(),
            derived,
        )
    );
}
