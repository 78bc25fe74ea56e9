use escrow::{
    Account, Action, Address, Authority, Escrow, EscrowSigner, Make, MakeAccount,
    MakeInstructionData, ProgramError, SYSTEM_PROGRAM_ID, TOKEN_PROGRAM_ID,
};

const PROGRAM: Address = [0x50; 32];
const MAKER: Address = [0x01; 32];
const ESCROW: Address = [0x02; 32];
const MINT_A: Address = [0x03; 32];
const MINT_B: Address = [0x04; 32];
const MAKER_ATA_A: Address = [0x05; 32];
const VAULT: Address = [0x06; 32];
const RESERVED: Address = [0x07; 32];
const BUMP: u8 = 254;

fn account(key: Address, owner: Address, len: usize) -> Account {
    Account { key, owner, lamports: 0, data: vec![0u8; len], is_signer: false }
}

fn make_accounts() -> Vec<Account> {
    let mut maker = account(MAKER, SYSTEM_PROGRAM_ID, 0);
    maker.is_signer = true;
    maker.lamports = 1_000_000_000;
    vec![
        maker,
        account(ESCROW, SYSTEM_PROGRAM_ID, 0),
        account(MINT_A, TOKEN_PROGRAM_ID, 82),
        account(MINT_B, TOKEN_PROGRAM_ID, 82),
        account(MAKER_ATA_A, TOKEN_PROGRAM_ID, 165),
        account(VAULT, SYSTEM_PROGRAM_ID, 0),
        account(SYSTEM_PROGRAM_ID, [0xaa; 32], 14),
        account(TOKEN_PROGRAM_ID, [0xbb; 32], 36),
        account(RESERVED, [0xcc; 32], 0),
    ]
}

fn make_payload(seed: u64, receive: u64, amount: u64) -> Vec<u8> {
    let mut data = Vec::new();
    data.extend_from_slice(&seed.to_le_bytes());
    data.extend_from_slice(&receive.to_le_bytes());
    data.extend_from_slice(&amount.to_le_bytes());
    data
}

fn derived() -> Option<(Address, u8)> {
    Some((ESCROW, BUMP))
}

fn vault_derived() -> Option<(Address, u8)> {
    Some((VAULT, 253))
}

#[test]
fn make_accounts_are_named_by_position() {
    let accounts = make_accounts();
    let named = MakeAccount::try_from(&accounts).unwrap();
    assert_eq!(named.maker.key, MAKER);
    assert_eq!(named.escrow.key, ESCROW);
    assert_eq!(named.mint_a.key, MINT_A);
    assert_eq!(named.mint_b.key, MINT_B);
    assert_eq!(named.maker_ata_a.key, MAKER_ATA_A);
    assert_eq!(named.vault.key, VAULT);
    assert_eq!(named.system_program.key, SYSTEM_PROGRAM_ID);
    assert_eq!(named.token_program.key, TOKEN_PROGRAM_ID);
    assert_eq!(named.maker, &accounts[0]);
    assert_eq!(named.vault, &accounts[5]);
}

#[test]
fn make_refuses_any_other_number_of_accounts() {
    let full = make_accounts();
    for len in 0..12usize {
        let mut accounts = full.clone();
        accounts.resize(len, account(RESERVED, SYSTEM_PROGRAM_ID, 0));
        let result = MakeAccount::try_from(&accounts);
        if len == 9 {
            assert!(result.is_ok());
        } else {
            assert_eq!(result, Err(ProgramError::NotEnoughAccountKeys));
        }
    }
}

#[test]
fn make_refuses_a_maker_who_has_not_signed() {
    let mut accounts = make_accounts();
    accounts[0].is_signer = false;
    assert_eq!(MakeAccount::try_from(&accounts), Err(ProgramError::MissingRequiredSignature));
}

#[test]
fn make_refuses_a_first_mint_of_wrong_length() {
    for len in [0usize, 81, 83, 165] {
        let mut accounts = make_accounts();
        accounts[2].data = vec![0u8; len];
        assert_eq!(MakeAccount::try_from(&accounts), Err(ProgramError::InvalidAccountData));
    }
}

#[test]
fn make_refuses_a_first_mint_of_foreign_owner() {
    let mut accounts = make_accounts();
    accounts[2].owner = SYSTEM_PROGRAM_ID;
    assert_eq!(MakeAccount::try_from(&accounts), Err(ProgramError::InvalidAccountOwner));
}

#[test]
fn make_refuses_a_second_mint_of_wrong_length() {
    for len in [0usize, 81, 83, 165] {
        let mut accounts = make_accounts();
        accounts[3].data = vec![0u8; len];
        assert_eq!(MakeAccount::try_from(&accounts), Err(ProgramError::InvalidAccountData));
    }
}

#[test]
fn make_refuses_a_second_mint_of_foreign_owner() {
    let mut accounts = make_accounts();
    accounts[3].owner = PROGRAM;
    assert_eq!(MakeAccount::try_from(&accounts), Err(ProgramError::InvalidAccountOwner));
}

#[test]
fn make_checks_accounts_in_order() {
    let mut accounts = make_accounts();
    accounts[0].is_signer = false;
    accounts[2].data = vec![];
    accounts[2].owner = SYSTEM_PROGRAM_ID;
    accounts[3].owner = SYSTEM_PROGRAM_ID;
    assert_eq!(MakeAccount::try_from(&accounts), Err(ProgramError::MissingRequiredSignature));
    accounts[0].is_signer = true;
    assert_eq!(MakeAccount::try_from(&accounts), Err(ProgramError::InvalidAccountData));
    accounts[2].data = vec![0u8; 82];
    assert_eq!(MakeAccount::try_from(&accounts), Err(ProgramError::InvalidAccountOwner));
    accounts[2].owner = TOKEN_PROGRAM_ID;
    accounts[3].data = vec![0u8; 1];
    assert_eq!(MakeAccount::try_from(&accounts), Err(ProgramError::InvalidAccountData));
    accounts[3].data = vec![0u8; 82];
    assert_eq!(MakeAccount::try_from(&accounts), Err(ProgramError::InvalidAccountOwner));
    accounts[3].owner = TOKEN_PROGRAM_ID;
    assert!(MakeAccount::try_from(&accounts).is_ok());
}

#[test]
fn make_stands_and_brings_record_and_vault_into_being() {
    let accounts = make_accounts();
    let data = make_payload(7, 500, 1000);
    let (make, actions) = Make::try_from_with(&PROGRAM, &data, &accounts, derived(), vault_derived()).unwrap();
    assert_eq!(make.instruction_data, MakeInstructionData { seed: 7, receive: 500, amount: 1000 });
    assert_eq!(make.bump, BUMP);
    assert_eq!(make.accounts, MakeAccount::try_from(&accounts).unwrap());
    assert_eq!(
        actions,
        vec![
            Action::CreateAccount {
                from: MAKER,
                to: ESCROW,
                space: 113,
                owner: PROGRAM,
                signer: EscrowSigner { maker: MAKER, seed: 7, bump: BUMP },
            },
            Action::CreateAssociatedTokenAccount {
                funding_account: MAKER,
                account: VAULT,
                wallet: ESCROW,
                mint: MINT_A,
                system_program: SYSTEM_PROGRAM_ID,
                token_program: TOKEN_PROGRAM_ID,
            },
        ]
    );
}

#[test]
fn make_writes_the_record_then_deposits() {
    let accounts = make_accounts();
    let data = make_payload(7, 500, 1000);
    let (make, _) = Make::try_from_with(&PROGRAM, &data, &accounts, derived(), vault_derived()).unwrap();
    assert_eq!(
        make.process(),
        vec![
            Action::WriteRecord {
                account: ESCROW,
                record: Escrow {
                    seed: 7,
                    maker: MAKER,
                    mint_a: MINT_A,
                    mint_b: MINT_B,
                    receive: 500,
                    bump: BUMP,
                },
            },
            Action::Transfer {
                from: MAKER_ATA_A,
                to: VAULT,
                authority: Authority::Wallet { address: MAKER },
                amount: 1000,
            },
        ]
    );
}

#[test]
fn make_refuses_bad_accounts_before_a_bad_payload() {
    let mut accounts = make_accounts();
    accounts[0].is_signer = false;
    let data = make_payload(7, 500, 0);
    assert_eq!(
        Make::try_from_with(&PROGRAM, &data, &accounts, derived(), vault_derived()),
        Err(ProgramError::MissingRequiredSignature)
    );
    assert_eq!(
        Make::try_from(&PROGRAM, &data, &accounts),
        Err(ProgramError::MissingRequiredSignature)
    );
}

#[test]
fn make_refuses_a_zero_amount_and_a_wrong_length() {
    let accounts = make_accounts();
    assert_eq!(
        Make::try_from_with(&PROGRAM, &make_payload(7, 500, 0), &accounts, derived(), vault_derived()),
        Err(ProgramError::InvalidInstructionData)
    );
    assert_eq!(
        Make::try_from(&PROGRAM, &make_payload(7, 500, 0), &accounts),
        Err(ProgramError::InvalidInstructionData)
    );
    for len in [0usize, 8, 16, 23, 25, 32] {
        let mut data = make_payload(7, 500, 1000);
        data.resize(len, 0);
        assert_eq!(
            Make::try_from_with(&PROGRAM, &data, &accounts, derived(), vault_derived()),
            Err(ProgramError::InvalidInstructionData)
        );
        assert_eq!(
            Make::try_from(&PROGRAM, &data, &accounts),
            Err(ProgramError::InvalidInstructionData)
        );
    }
}

#[test]
fn make_refuses_a_forged_mint() {
    let data = make_payload(7, 500, 1000);
    for index in [2usize, 3] {
        let mut accounts = make_accounts();
        accounts[index].owner = SYSTEM_PROGRAM_ID;
        assert_eq!(
            Make::try_from_with(&PROGRAM, &data, &accounts, derived(), vault_derived()),
            Err(ProgramError::InvalidAccountOwner)
        );
        assert_eq!(Make::try_from(&PROGRAM, &data, &accounts), Err(ProgramError::InvalidAccountOwner));
        let mut accounts = make_accounts();
        accounts[index].data = vec![0u8; 165];
        assert_eq!(
            Make::try_from_with(&PROGRAM, &data, &accounts, derived(), vault_derived()),
            Err(ProgramError::InvalidAccountData)
        );
        assert_eq!(Make::try_from(&PROGRAM, &data, &accounts), Err(ProgramError::InvalidAccountData));
    }
}

#[test]
fn make_refuses_a_slot_that_already_holds_a_record() {
    let mut accounts = make_accounts();
    accounts[1].owner = PROGRAM;
    accounts[1].data = vec![0u8; 113];
    let data = make_payload(7, 500, 1000);
    assert_eq!(
        Make::try_from_with(&PROGRAM, &data, &accounts, derived(), vault_derived()),
        Err(ProgramError::AccountAlreadyInitialized)
    );
    assert_eq!(
        Make::try_from(&PROGRAM, &data, &accounts),
        Err(ProgramError::AccountAlreadyInitialized)
    );
}

#[test]
fn make_refuses_an_escrow_slot_at_another_address() {
    let accounts = make_accounts();
    let data = make_payload(7, 500, 1000);
    assert_eq!(
        Make::try_from_with(&PROGRAM, &data, &accounts, Some((VAULT, BUMP)), vault_derived()),
        Err(ProgramError::InvalidAccountData)
    );
}

#[test]
fn make_without_a_derived_address_is_refused() {
    let accounts = make_accounts();
    let data = make_payload(7, 500, 1000);
    assert_eq!(
        Make::try_from_with(&PROGRAM, &data, &accounts, None, vault_derived()),
        Err(ProgramError::InvalidSeeds)
    );
}

#[test]
fn make_keeps_the_bump_that_was_derived() {
    let accounts = make_accounts();
    let data = make_payload(1, 2, 3);
    for bump in [0u8, 1, 200, 255] {
        let (make, actions) =
            Make::try_from_with(&PROGRAM, &data, &accounts, Some((ESCROW, bump)), vault_derived()).unwrap();
        assert_eq!(make.bump, bump);
        match actions[0] {
            Action::CreateAccount { signer, .. } => assert_eq!(signer.bump, bump),
            _ => panic!("the record's storage comes first"),
        }
        match make.process()[0] {
            Action::WriteRecord { record, .. } => assert_eq!(record.bump, bump),
            _ => panic!("the record is written first"),
        }
    }
}

#[test]
fn make_follows_the_hosts_answer() {
    let accounts = make_accounts();
    let data = make_payload(7, 500, 1000);
    let nonce = 7u64.to_le_bytes();
    let answer = pinocchio::pubkey::try_find_program_address(&[b"escrow", &MAKER, &nonce], &PROGRAM);
    let vault_answer = pinocchio::pubkey::try_find_program_address(
        &[&ESCROW, &TOKEN_PROGRAM_ID, &MINT_A],
        &pinocchio_associated_token_account::ID,
    );
    assert_eq!(
        Make::try_from(&PROGRAM, &data, &accounts),
        Make::try_from_with(&PROGRAM, &data, &accounts, answer, vault_answer)
    );
}

#[test]
fn make_refuses_a_vault_slot_at_another_address() {
    let accounts = make_accounts();
    let data = make_payload(7, 500, 1000);
    assert_eq!(
        Make::try_from_with(&PROGRAM, &data, &accounts, derived(), Some((MAKER_ATA_A, 253))),
        Err(ProgramError::InvalidAccountData)
    );
    let mut near = VAULT;
    near[31] ^= 1;
    assert_eq!(
        Make::try_from_with(&PROGRAM, &data, &accounts, derived(), Some((near, 253))),
        Err(ProgramError::InvalidAccountData)
    );
}

#[test]
fn make_without_a_derived_vault_address_is_refused() {
    let accounts = make_accounts();
    let data = make_payload(7, 500, 1000);
    assert_eq!(
        Make::try_from_with(&PROGRAM, &data, &accounts, derived(), None),
        Err(ProgramError::InvalidSeeds)
    );
}

#[test]
fn make_holds_the_escrow_slot_before_the_vault_slot() {
    let accounts = make_accounts();
    let data = make_payload(7, 500, 1000);
    assert_eq!(
        Make::try_from_with(&PROGRAM, &data, &accounts, None, Some((RESERVED, 253))),
        Err(ProgramError::InvalidSeeds)
    );
    assert_eq!(
        Make::try_from_with(&PROGRAM, &data, &accounts, Some((RESERVED, BUMP)), None),
        Err(ProgramError::InvalidAccountData)
    );
    let mut taken = make_accounts();
    taken[1].owner = PROGRAM;
    assert_eq!(
        Make::try_from_with(&PROGRAM, &data, &taken, Some((RESERVED, BUMP)), None),
        Err(ProgramError::AccountAlreadyInitialized)
    );
}

#[test]
fn make_does_not_look_at_the_vaults_bump() {
    let accounts = make_accounts();
    let data = make_payload(7, 500, 1000);
    let (first, _) =
        Make::try_from_with(&PROGRAM, &data, &accounts, derived(), Some((VAULT, 0))).unwrap();
    let (second, _) =
        Make::try_from_with(&PROGRAM, &data, &accounts, derived(), Some((VAULT, 255))).unwrap();
    assert_eq!(first, second);
    assert_eq!(first.bump, BUMP);
}

#[test]
fn two_makes_of_one_maker_and_nonce_sign_with_the_same_seeds() {
    let accounts = make_accounts();
    let mut others = make_accounts();
    others[3].key = [0x44; 32];
    others[4].key = [0x55; 32];
    let (first, first_actions) =
        Make::try_from_with(&PROGRAM, &make_payload(7, 500, 1000), &accounts, derived(), vault_derived())
            .unwrap();
    let (second, second_actions) =
        Make::try_from_with(&PROGRAM, &make_payload(7, 1, 2), &others, derived(), vault_derived())
            .unwrap();
    assert_eq!(first.bump, second.bump);
    assert_eq!(first.accounts.escrow.key, second.accounts.escrow.key);
    match (first_actions[0], second_actions[0]) {
        (
            Action::CreateAccount { signer: one, .. },
            Action::CreateAccount { signer: other, .. },
        ) => {
            assert_eq!(one, other);
            assert_eq!(one.seeds(), other.seeds());
        },
        _ => panic!("the record's storage comes first"),
    }
}
