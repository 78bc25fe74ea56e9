use escrow::{
    Account, Address, Escrow, MakeInstructionData, ProgramError, SYSTEM_PROGRAM_ID,
    TOKEN_ACCOUNT_LEN, TOKEN_PROGRAM_ID,
};

fn payload(seed: u64, receive: u64, amount: u64) -> Vec<u8> {
    let mut data = Vec::new();
    data.extend_from_slice(&seed.to_le_bytes());
    data.extend_from_slice(&receive.to_le_bytes());
    data.extend_from_slice(&amount.to_le_bytes());
    data
}

fn sample_record() -> Escrow {
    Escrow {
        seed: 0x1122334455667788,
        maker: [0xa1; 32],
        mint_a: [0xb2; 32],
        mint_b: [0xc3; 32],
        receive: 500,
        bump: 253,
    }
}

fn holding_account(owner: Address, len: usize, amount: u64) -> Account {
    let mut data = vec![0u8; len];
    if len >= 72 {
        data[64..72].copy_from_slice(&amount.to_le_bytes());
    }
    Account { key: [5u8; 32], owner, lamports: 2_039_280, data, is_signer: false }
}

#[test]
fn make_payload_parses_three_little_endian_integers() {
    let data = payload(7, 500, 1000);
    assert_eq!(data.len(), 24);
    assert_eq!(
        MakeInstructionData::try_from(&data[..]),
        Ok(MakeInstructionData { seed: 7, receive: 500, amount: 1000 })
    );
}

#[test]
fn make_payload_reads_bytes_in_little_endian_order() {
    let data: [u8; 24] = [
        0x01, 0x02, 0x03, 0x04, 0x05, 0x06, 0x07, 0x08, 0xf4, 0x01, 0, 0, 0, 0, 0, 0, 0xe8, 0x03,
        0, 0, 0, 0, 0, 0,
    ];
    assert_eq!(
        MakeInstructionData::try_from(&data[..]),
        Ok(MakeInstructionData { seed: 0x0807060504030201, receive: 500, amount: 1000 })
    );
}

#[test]
fn make_payload_takes_the_largest_values() {
    let data = payload(u64::MAX, u64::MAX, u64::MAX);
    assert_eq!(
        MakeInstructionData::try_from(&data[..]),
        Ok(MakeInstructionData { seed: u64::MAX, receive: u64::MAX, amount: u64::MAX })
    );
}

#[test]
fn make_payload_may_ask_for_nothing_in_return() {
    let data = payload(0, 0, 1);
    assert_eq!(
        MakeInstructionData::try_from(&data[..]),
        Ok(MakeInstructionData { seed: 0, receive: 0, amount: 1 })
    );
}

#[test]
fn make_payload_of_zero_amount_is_refused() {
    let data = payload(7, 500, 0);
    assert_eq!(
        MakeInstructionData::try_from(&data[..]),
        Err(ProgramError::InvalidInstructionData)
    );
}

#[test]
fn make_payload_of_any_other_length_is_refused() {
    let good = payload(7, 500, 1000);
    for len in 0..64usize {
        let mut data = good.clone();
        data.resize(len, 1);
        let parsed = MakeInstructionData::try_from(&data[..]);
        if len == 24 {
            assert!(parsed.is_ok());
        } else {
            assert_eq!(parsed, Err(ProgramError::InvalidInstructionData));
        }
    }
}

#[test]
fn record_encoding_is_fields_in_order_without_padding() {
    let record = sample_record();
    let bytes = record.to_bytes();
    assert_eq!(bytes.len(), 113);
    assert_eq!(&bytes[0..8], &[0x88, 0x77, 0x66, 0x55, 0x44, 0x33, 0x22, 0x11]);
    assert_eq!(&bytes[8..40], &[0xa1; 32]);
    assert_eq!(&bytes[40..72], &[0xb2; 32]);
    assert_eq!(&bytes[72..104], &[0xc3; 32]);
    assert_eq!(&bytes[104..112], &[0xf4, 0x01, 0, 0, 0, 0, 0, 0]);
    assert_eq!(bytes[112], 253);
}

#[test]
fn record_round_trips() {
    let record = sample_record();
    assert_eq!(Escrow::load(&record.to_bytes()), Ok(record));
    let other = Escrow {
        seed: u64::MAX,
        maker: [0; 32],
        mint_a: [255; 32],
        mint_b: [1; 32],
        receive: 0,
        bump: 0,
    };
    assert_eq!(Escrow::load(&other.to_bytes()), Ok(other));
}

#[test]
fn record_loads_every_field_from_its_place() {
    let mut bytes = vec![0u8; 113];
    for (i, b) in bytes.iter_mut().enumerate() {
        *b = i as u8;
    }
    let record = Escrow::load(&bytes).unwrap();
    assert_eq!(record.seed, u64::from_le_bytes([0, 1, 2, 3, 4, 5, 6, 7]));
    let mut maker = [0u8; 32];
    let mut mint_a = [0u8; 32];
    let mut mint_b = [0u8; 32];
    for i in 0..32 {
        maker[i] = (8 + i) as u8;
        mint_a[i] = (40 + i) as u8;
        mint_b[i] = (72 + i) as u8;
    }
    assert_eq!(record.maker, maker);
    assert_eq!(record.mint_a, mint_a);
    assert_eq!(record.mint_b, mint_b);
    assert_eq!(record.receive, u64::from_le_bytes([104, 105, 106, 107, 108, 109, 110, 111]));
    assert_eq!(record.bump, 112);
    assert_eq!(record.to_bytes(), bytes);
}

#[test]
fn record_of_any_other_length_does_not_load() {
    for len in [0usize, 1, 112, 114, 120, 165] {
        let bytes = vec![0u8; len];
        assert_eq!(Escrow::load(&bytes), Err(ProgramError::InvalidAccountData));
    }
}

#[test]
fn tombstoned_and_shrunk_record_does_not_load() {
    let mut bytes = sample_record().to_bytes();
    bytes[0] = escrow::TOMBSTONE;
    bytes.truncate(escrow::CLOSED_LEN);
    assert_eq!(bytes, vec![0xff]);
    assert_eq!(Escrow::load(&bytes), Err(ProgramError::InvalidAccountData));
}

#[test]
fn account_reports_length_and_owner() {
    let account = holding_account(TOKEN_PROGRAM_ID, TOKEN_ACCOUNT_LEN, 0);
    assert_eq!(account.data_len(), 165);
    assert!(account.is_owned_by(&TOKEN_PROGRAM_ID));
    assert!(!account.is_owned_by(&SYSTEM_PROGRAM_ID));
}

#[test]
fn token_amount_is_read_from_the_balance_field() {
    let account = holding_account(TOKEN_PROGRAM_ID, TOKEN_ACCOUNT_LEN, 1000);
    assert_eq!(account.token_amount(), Ok(1000));
    let account = holding_account(TOKEN_PROGRAM_ID, TOKEN_ACCOUNT_LEN, 0x0102030405060708);
    assert_eq!(account.token_amount(), Ok(0x0102030405060708));
    assert_eq!(&account.data[64..72], &[8, 7, 6, 5, 4, 3, 2, 1]);
    let account = holding_account(TOKEN_PROGRAM_ID, TOKEN_ACCOUNT_LEN, u64::MAX);
    assert_eq!(account.token_amount(), Ok(u64::MAX));
}

#[test]
fn token_amount_ignores_every_other_byte() {
    let mut account = holding_account(TOKEN_PROGRAM_ID, TOKEN_ACCOUNT_LEN, 42);
    for i in 0..165 {
        if !(64..72).contains(&i) {
            account.data[i] = 0xee;
        }
    }
    assert_eq!(account.token_amount(), Ok(42));
}

#[test]
fn token_amount_of_a_wrong_length_is_refused() {
    for len in [0usize, 82, 164, 166] {
        let account = holding_account(TOKEN_PROGRAM_ID, len, 1000);
        assert_eq!(account.token_amount(), Err(ProgramError::InvalidAccountData));
    }
}

#[test]
fn token_amount_of_a_foreign_owner_is_refused() {
    let account = holding_account(SYSTEM_PROGRAM_ID, TOKEN_ACCOUNT_LEN, 1000);
    assert_eq!(account.token_amount(), Err(ProgramError::InvalidAccountData));
}
