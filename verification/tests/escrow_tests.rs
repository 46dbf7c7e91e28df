use escrow::error::EscrowError;
use escrow::instruction::EscrowInstruction;
use escrow::processor::{Account, Processor};
use escrow::state::{Escrow, ESCROW_LEN};

use solana_program::pubkey::Pubkey;
use solana_program::rent::Rent;

const TOKEN_PROGRAM_BYTES: [u8; 32] = [
    6, 221, 246, 225, 215, 101, 161, 147, 217, 203, 225, 70, 206, 235, 121, 172, 28, 180, 133,
    237, 95, 91, 55, 145, 58, 140, 245, 133, 126, 255, 0, 169,
];

fn sample_record() -> Escrow {
    Escrow {
        is_initialized: true,
        initializer_pubkey: [11u8; 32],
        temp_token_account_pubkey: [22u8; 32],
        initializer_token_to_receive_account_pubkey: [33u8; 32],
        expected_amount: 0x0102030405060708,
    }
}

fn rent_oracle_account() -> Account {
    Account {
        identity: solana_program::sysvar::rent::id().to_bytes(),
        is_signer: false,
        owner: [0u8; 32],
        lamports: 1,
        data: bincode::serialize(&Rent::default()).unwrap(),
    }
}

/// Six accounts in wire order that pass every validation, with an empty
/// rent-funded storage account.
fn good_accounts() -> Vec<Account> {
    let storage_balance = Rent::default().minimum_balance(ESCROW_LEN);
    vec![
        Account {
            identity: [1u8; 32],
            is_signer: true,
            owner: [0u8; 32],
            lamports: 0,
            data: vec![],
        },
        Account {
            identity: [2u8; 32],
            is_signer: false,
            owner: TOKEN_PROGRAM_BYTES,
            lamports: 0,
            data: vec![],
        },
        Account {
            identity: [3u8; 32],
            is_signer: false,
            owner: TOKEN_PROGRAM_BYTES,
            lamports: 0,
            data: vec![],
        },
        Account {
            identity: [4u8; 32],
            is_signer: false,
            owner: [9u8; 32],
            lamports: storage_balance,
            data: vec![0u8; ESCROW_LEN],
        },
        rent_oracle_account(),
        Account {
            identity: TOKEN_PROGRAM_BYTES,
            is_signer: false,
            owner: [0u8; 32],
            lamports: 0,
            data: vec![],
        },
    ]
}

fn init_instruction(amount: u64) -> Vec<u8> {
    let mut data = vec![0u8];
    data.extend_from_slice(&amount.to_le_bytes());
    data
}

const PROGRAM_ID: [u8; 32] = [7u8; 32];

#[test]
fn record_round_trip() {
    let r = sample_record();
    let bytes = r.pack();
    let decoded = Escrow::unpack_from_slice(&bytes).unwrap();
    assert_eq!(decoded, r);
}

#[test]
fn pack_always_105_bytes() {
    assert_eq!(sample_record().pack().len(), 105);
    let empty = Escrow {
        is_initialized: false,
        initializer_pubkey: [0u8; 32],
        temp_token_account_pubkey: [0u8; 32],
        initializer_token_to_receive_account_pubkey: [0u8; 32],
        expected_amount: 0,
    };
    assert_eq!(empty.pack().len(), 105);
}

#[test]
fn pack_exact_layout() {
    let bytes = sample_record().pack();
    assert_eq!(bytes[0], 1);
    assert_eq!(&bytes[1..33], &[11u8; 32]);
    assert_eq!(&bytes[33..65], &[22u8; 32]);
    assert_eq!(&bytes[65..97], &[33u8; 32]);
    assert_eq!(&bytes[97..105], &[8, 7, 6, 5, 4, 3, 2, 1]);
}

#[test]
fn pack_into_slice_overwrites_buffer() {
    let mut buf = vec![0xAAu8; ESCROW_LEN];
    let r = sample_record();
    r.pack_into_slice(&mut buf);
    assert_eq!(buf, r.pack());
}

#[test]
fn unpack_rejects_wrong_size() {
    assert_eq!(
        Escrow::unpack_from_slice(&[]).unwrap_err(),
        EscrowError::InvalidEncoding
    );
    assert_eq!(
        Escrow::unpack_from_slice(&vec![0u8; 104]).unwrap_err(),
        EscrowError::InvalidEncoding
    );
    assert_eq!(
        Escrow::unpack_from_slice(&vec![0u8; 106]).unwrap_err(),
        EscrowError::InvalidEncoding
    );
}

#[test]
fn unpack_rejects_bad_flag_byte() {
    let mut bytes = vec![0u8; 105];
    bytes[0] = 2;
    assert_eq!(
        Escrow::unpack_from_slice(&bytes).unwrap_err(),
        EscrowError::InvalidEncoding
    );
    bytes[0] = 255;
    assert_eq!(
        Escrow::unpack_from_slice(&bytes).unwrap_err(),
        EscrowError::InvalidEncoding
    );
}

#[test]
fn unpack_zeroed_slot_is_uninitialized() {
    let record = Escrow::unpack_from_slice(&vec![0u8; 105]).unwrap();
    assert!(!record.is_initialized());
    assert_eq!(record.expected_amount, 0);
    assert_eq!(record.initializer_pubkey, [0u8; 32]);
}

#[test]
fn instruction_unpack_reads_amount() {
    let data = init_instruction(1_000_000);
    match EscrowInstruction::unpack(&data).unwrap() {
        EscrowInstruction::InitEscrow { amount } => assert_eq!(amount, 1_000_000),
    }
}

#[test]
fn instruction_unpack_accepts_trailing_bytes() {
    let mut data = init_instruction(42);
    data.push(99);
    match EscrowInstruction::unpack(&data).unwrap() {
        EscrowInstruction::InitEscrow { amount } => assert_eq!(amount, 42),
    }
}

#[test]
fn instruction_unpack_rejects_short_or_unknown() {
    assert_eq!(
        EscrowInstruction::unpack(&[]).unwrap_err(),
        EscrowError::InvalidInstruction
    );
    assert_eq!(
        EscrowInstruction::unpack(&[0, 1, 2, 3]).unwrap_err(),
        EscrowError::InvalidInstruction
    );
    let mut data = init_instruction(7);
    data[0] = 1;
    assert_eq!(
        EscrowInstruction::unpack(&data).unwrap_err(),
        EscrowError::InvalidInstruction
    );
}

#[test]
fn process_rejects_missing_signature() {
    let mut accounts = good_accounts();
    accounts[0].is_signer = false;
    let before = accounts[3].data.clone();
    let r = Processor::process(&PROGRAM_ID, &accounts, &init_instruction(5));
    assert_eq!(r.unwrap_err(), EscrowError::MissingSignature);
    assert_eq!(accounts[3].data, before);
}

#[test]
fn process_rejects_wrong_owner() {
    let mut accounts = good_accounts();
    accounts[2].owner = [8u8; 32];
    let r = Processor::process(&PROGRAM_ID, &accounts, &init_instruction(5));
    assert_eq!(r.unwrap_err(), EscrowError::WrongOwner);
}

#[test]
fn process_rejects_underfunded_storage() {
    let mut accounts = good_accounts();
    accounts[3].lamports = Rent::default().minimum_balance(ESCROW_LEN) - 1;
    let r = Processor::process(&PROGRAM_ID, &accounts, &init_instruction(5));
    assert_eq!(r.unwrap_err(), EscrowError::NotRentExempt);
}

#[test]
fn checked_transition_honours_oracle_verdict() {
    let accounts = good_accounts();
    let r = Processor::init_escrow_checked(&accounts, 5, &PROGRAM_ID, Some(false));
    assert_eq!(r.unwrap_err(), EscrowError::NotRentExempt);
    let r = Processor::init_escrow_checked(&accounts, 5, &PROGRAM_ID, None);
    assert_eq!(r.unwrap_err(), EscrowError::InvalidRentOracle);
    assert!(Processor::init_escrow_checked(&accounts, 5, &PROGRAM_ID, Some(true)).is_ok());
}

#[test]
fn process_rejects_unreadable_rent_oracle() {
    let mut accounts = good_accounts();
    accounts[4].identity = [5u8; 32];
    let r = Processor::process(&PROGRAM_ID, &accounts, &init_instruction(5));
    assert_eq!(r.unwrap_err(), EscrowError::InvalidRentOracle);

    let mut accounts = good_accounts();
    accounts[4].data = vec![1, 2, 3];
    let r = Processor::process(&PROGRAM_ID, &accounts, &init_instruction(5));
    assert_eq!(r.unwrap_err(), EscrowError::InvalidRentOracle);
}

#[test]
fn process_rejects_overflowing_rent_parameters() {
    let mut accounts = good_accounts();
    let absurd = Rent {
        lamports_per_byte_year: u64::MAX,
        exemption_threshold: 2.0,
        burn_percent: 10,
    };
    accounts[4].data = bincode::serialize(&absurd).unwrap();
    let r = Processor::process(&PROGRAM_ID, &accounts, &init_instruction(5));
    assert_eq!(r.unwrap_err(), EscrowError::InvalidRentOracle);
}

#[test]
fn process_rejects_too_few_accounts() {
    let mut accounts = good_accounts();
    accounts.truncate(4);
    let r = Processor::process(&PROGRAM_ID, &accounts, &init_instruction(5));
    assert_eq!(r.unwrap_err(), EscrowError::NotEnoughAccounts);
    let r = Processor::process(&PROGRAM_ID, &[], &init_instruction(5));
    assert_eq!(r.unwrap_err(), EscrowError::NotEnoughAccounts);
}

#[test]
fn process_rejects_malformed_storage_data() {
    let mut accounts = good_accounts();
    accounts[3].data = vec![0u8; 10];
    let r = Processor::process(&PROGRAM_ID, &accounts, &init_instruction(5));
    assert_eq!(r.unwrap_err(), EscrowError::InvalidEncoding);

    let mut accounts = good_accounts();
    accounts[3].data[0] = 9;
    let r = Processor::process(&PROGRAM_ID, &accounts, &init_instruction(5));
    assert_eq!(r.unwrap_err(), EscrowError::InvalidEncoding);
}

#[test]
fn process_end_to_end() {
    let accounts = good_accounts();
    let eff = Processor::process(&PROGRAM_ID, &accounts, &init_instruction(1_000_000)).unwrap();

    let record = Escrow::unpack_from_slice(&eff.escrow_data).unwrap();
    assert!(record.is_initialized());
    assert_eq!(record.expected_amount, 1_000_000);
    assert_eq!(record.initializer_pubkey, [1u8; 32]);
    assert_eq!(record.temp_token_account_pubkey, [2u8; 32]);
    assert_eq!(record.initializer_token_to_receive_account_pubkey, [3u8; 32]);

    assert_eq!(eff.custody_account, [2u8; 32]);
    assert_eq!(eff.current_authority, [1u8; 32]);
    assert_eq!(eff.token_program, TOKEN_PROGRAM_BYTES);

    let (expected_authority, _bump) = Pubkey::find_program_address(
        &[b"escrow"],
        &Pubkey::new_from_array(PROGRAM_ID),
    );
    assert_eq!(eff.new_authority, expected_authority.to_bytes());
}

#[test]
fn process_rejects_double_initialization() {
    let mut accounts = good_accounts();
    let eff = Processor::process(&PROGRAM_ID, &accounts, &init_instruction(77)).unwrap();
    accounts[3].data = eff.escrow_data;
    let r = Processor::process(&PROGRAM_ID, &accounts, &init_instruction(77));
    assert_eq!(r.unwrap_err(), EscrowError::AlreadyInitialized);
}

#[test]
fn authority_derivation_is_deterministic() {
    let accounts = good_accounts();
    let first = Processor::process(&PROGRAM_ID, &accounts, &init_instruction(9)).unwrap();
    let second = Processor::process(&PROGRAM_ID, &accounts, &init_instruction(9)).unwrap();
    assert_eq!(first.new_authority, second.new_authority);
    assert_eq!(first.escrow_data, second.escrow_data);
}

#[test]
fn token_program_address_matches_sdk() {
    assert_eq!(spl_token::id().to_bytes(), TOKEN_PROGRAM_BYTES);
    let mut accounts = good_accounts();
    accounts[2].owner = spl_token::id().to_bytes();
    assert!(Processor::process(&PROGRAM_ID, &accounts, &init_instruction(5)).is_ok());
}

#[test]
fn rent_boundary_matches_oracle() {
    let exact = Rent::default().minimum_balance(ESCROW_LEN);
    let mut accounts = good_accounts();
    accounts[3].lamports = exact;
    assert!(Processor::process(&PROGRAM_ID, &accounts, &init_instruction(5)).is_ok());
}
