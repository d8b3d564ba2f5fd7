use escrow_custody::accounts::Account;
use escrow_custody::derivation::{buffer_seed_list, escrow_seed_list, find_program_address};
use escrow_custody::errors::EscrowError;
use escrow_custody::instruction::delegate::{
    encode_delegate_args, parse_delegate_args, process_delegate, DelegateAccountArgs,
};
use escrow_custody::instruction::undelegate::process_undelegate;

const PROGRAM_ID: [u8; 32] = [9u8; 32];
const DELEGATION_PROGRAM: [u8; 32] = [10u8; 32];
const SYSTEM_PROGRAM: [u8; 32] = [0u8; 32];
const RENT_100: u64 = 1_586_880;

fn key(b: u8) -> [u8; 32] {
    [b; 32]
}

struct CustodySetup {
    maker: Account,
    subject: Account,
    buffer: Account,
}

fn custody_setup() -> CustodySetup {
    let maker_key = key(0x02);
    let (subject_key, _) =
        find_program_address(&escrow_seed_list(&maker_key), &PROGRAM_ID).unwrap();
    let (buffer_key, _) =
        find_program_address(&buffer_seed_list(&subject_key), &PROGRAM_ID).unwrap();
    let maker = Account {
        key: maker_key,
        lamports: 1_000_000_000,
        owner: SYSTEM_PROGRAM,
        data: Vec::new(),
    };
    let mut data = vec![0u8; 100];
    data[0] = 42;
    let subject = Account { key: subject_key, lamports: RENT_100, owner: PROGRAM_ID, data };
    let buffer = Account {
        key: buffer_key,
        lamports: 0,
        owner: SYSTEM_PROGRAM,
        data: Vec::new(),
    };
    CustodySetup { maker, subject, buffer }
}

#[test]
fn test_delegate() {
    let s = custody_setup();
    let args = DelegateAccountArgs::default();
    let out = process_delegate(
        &s.maker,
        &s.subject,
        &s.buffer,
        &PROGRAM_ID,
        &DELEGATION_PROGRAM,
        &SYSTEM_PROGRAM,
        RENT_100,
        &args,
    )
    .unwrap();
    assert_eq!(out.buffer.data, s.subject.data);
    assert_eq!(out.buffer.owner, PROGRAM_ID);
    assert_eq!(out.buffer.lamports, RENT_100);
    assert_eq!(out.subject.owner, DELEGATION_PROGRAM);
    assert_eq!(out.subject.data, vec![0u8; 100]);
    assert_eq!(out.subject.key, s.subject.key);
    // the subject's rent came back to the maker, who funded both accounts
    assert_eq!(
        out.maker.lamports,
        s.maker.lamports - RENT_100 + s.subject.lamports - RENT_100
    );
    let mut expected_payload = vec![0u8; 8];
    expected_payload.extend_from_slice(&encode_delegate_args(&args).unwrap());
    assert_eq!(out.authority_payload, expected_payload);
}

#[test]
fn test_delegate_foreign_subject() {
    let mut s = custody_setup();
    s.subject.owner = DELEGATION_PROGRAM;
    let args = DelegateAccountArgs::default();
    let r = process_delegate(
        &s.maker,
        &s.subject,
        &s.buffer,
        &PROGRAM_ID,
        &DELEGATION_PROGRAM,
        &SYSTEM_PROGRAM,
        RENT_100,
        &args,
    );
    assert!(matches!(r, Err(EscrowError::Unauthorized)));
}

#[test]
fn test_delegate_wrong_buffer_address() {
    let mut s = custody_setup();
    s.buffer.key = key(0x33);
    let args = DelegateAccountArgs::default();
    let r = process_delegate(
        &s.maker,
        &s.subject,
        &s.buffer,
        &PROGRAM_ID,
        &DELEGATION_PROGRAM,
        &SYSTEM_PROGRAM,
        RENT_100,
        &args,
    );
    assert!(matches!(r, Err(EscrowError::AddressMismatch)));
}

#[test]
fn test_delegate_occupied_buffer() {
    let mut s = custody_setup();
    s.buffer.lamports = 5;
    let args = DelegateAccountArgs::default();
    let r = process_delegate(
        &s.maker,
        &s.subject,
        &s.buffer,
        &PROGRAM_ID,
        &DELEGATION_PROGRAM,
        &SYSTEM_PROGRAM,
        RENT_100,
        &args,
    );
    assert!(matches!(r, Err(EscrowError::AlreadyInitialized)));
}

#[test]
fn test_undelegate() {
    let s = custody_setup();
    // the state that a completed relocation leaves behind
    let delegated_subject = Account {
        key: s.subject.key,
        lamports: RENT_100,
        owner: DELEGATION_PROGRAM,
        data: vec![0u8; 100],
    };
    let mut staged = vec![0u8; 100];
    staged[0] = 42;
    let staged_buffer = Account {
        key: s.buffer.key,
        lamports: RENT_100,
        owner: PROGRAM_ID,
        data: staged.clone(),
    };
    let out = process_undelegate(
        &s.maker,
        &delegated_subject,
        &staged_buffer,
        &PROGRAM_ID,
        &DELEGATION_PROGRAM,
        &SYSTEM_PROGRAM,
        RENT_100,
    )
    .unwrap();
    assert_eq!(out.subject.owner, PROGRAM_ID);
    assert_eq!(out.subject.data, staged);
    assert_eq!(out.subject.lamports, RENT_100);
    assert_eq!(out.buffer.lamports, 0);
    assert_eq!(out.buffer.data.len(), 0);
    assert_eq!(out.buffer.owner, SYSTEM_PROGRAM);
}

#[test]
fn test_undelegate_not_delegated() {
    let s = custody_setup();
    let r = process_undelegate(
        &s.maker,
        &s.subject,
        &s.buffer,
        &PROGRAM_ID,
        &DELEGATION_PROGRAM,
        &SYSTEM_PROGRAM,
        RENT_100,
    );
    assert!(matches!(r, Err(EscrowError::Unauthorized)));
}

#[test]
fn test_delegate_undelegate_roundtrip() {
    let s = custody_setup();
    let args = DelegateAccountArgs::default();
    let d = process_delegate(
        &s.maker,
        &s.subject,
        &s.buffer,
        &PROGRAM_ID,
        &DELEGATION_PROGRAM,
        &SYSTEM_PROGRAM,
        RENT_100,
        &args,
    )
    .unwrap();
    let u = process_undelegate(
        &d.maker,
        &d.subject,
        &d.buffer,
        &PROGRAM_ID,
        &DELEGATION_PROGRAM,
        &SYSTEM_PROGRAM,
        RENT_100,
    )
    .unwrap();
    assert_eq!(u.subject.key, s.subject.key);
    assert_eq!(u.subject.data, s.subject.data);
    assert_eq!(u.subject.owner, PROGRAM_ID);
    assert_eq!(u.buffer.data.len(), 0);
    assert_eq!(u.buffer.lamports, 0);
}

#[test]
fn test_delegate_args_wire_matches_borsh() {
    let args = DelegateAccountArgs {
        commit_frequency_ms: 42,
        seeds: vec![vec![1u8, 2, 3], vec![], vec![0xff; 40]],
        validator: Some([7u8; 32]),
    };
    let ours = encode_delegate_args(&args).unwrap();
    let tuple: (u32, Vec<Vec<u8>>, Option<[u8; 32]>) =
        (42, vec![vec![1u8, 2, 3], vec![], vec![0xff; 40]], Some([7u8; 32]));
    let theirs = borsh::to_vec(&tuple).unwrap();
    assert_eq!(ours, theirs);
}

#[test]
fn test_delegate_args_default_wire_matches_borsh() {
    let args = DelegateAccountArgs::default();
    assert_eq!(args.commit_frequency_ms, u32::MAX);
    assert!(args.seeds.is_empty());
    assert!(args.validator.is_none());
    let ours = encode_delegate_args(&args).unwrap();
    let tuple: (u32, Vec<Vec<u8>>, Option<[u8; 32]>) = (u32::MAX, vec![], None);
    let theirs = borsh::to_vec(&tuple).unwrap();
    assert_eq!(ours, theirs);
}

#[test]
fn test_delegate_args_parse_roundtrip() {
    let args = DelegateAccountArgs {
        commit_frequency_ms: 30_000,
        seeds: vec![b"escrow".to_vec(), vec![2u8; 32]],
        validator: None,
    };
    let wire = encode_delegate_args(&args).unwrap();
    let parsed = parse_delegate_args(&wire).unwrap();
    assert_eq!(parsed, args);
}

#[test]
fn test_delegate_args_parse_malformed() {
    assert!(matches!(
        parse_delegate_args(&vec![1u8, 2, 3]),
        Err(EscrowError::MalformedPayload)
    ));
    // a seed length running past the payload
    let mut wire = vec![0u8; 8];
    wire[4] = 1;
    wire.extend_from_slice(&100u32.to_le_bytes());
    assert!(matches!(parse_delegate_args(&wire), Err(EscrowError::MalformedPayload)));
    // trailing garbage after the validator tag
    let args = DelegateAccountArgs::default();
    let mut wire = encode_delegate_args(&args).unwrap();
    wire.push(0);
    assert!(matches!(parse_delegate_args(&wire), Err(EscrowError::MalformedPayload)));
}
