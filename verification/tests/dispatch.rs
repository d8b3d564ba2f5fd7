use escrow_custody::derivation::{create_program_address, escrow_seed_list, find_program_address};
use escrow_custody::errors::EscrowError;
use escrow_custody::instruction::{check_account_shape, parse_instruction, MyProgramInstrution};
use escrow_custody::state::{encode_escrow, Escrow};

const PROGRAM_ID: [u8; 32] = [9u8; 32];

#[test]
fn test_try_from_mapping() {
    assert_eq!(MyProgramInstrution::try_from(0), Ok(MyProgramInstrution::Make));
    assert_eq!(MyProgramInstrution::try_from(1), Ok(MyProgramInstrution::Take));
    assert_eq!(MyProgramInstrution::try_from(2), Ok(MyProgramInstrution::Refund));
    assert_eq!(MyProgramInstrution::try_from(3), Ok(MyProgramInstrution::Delegate));
    assert_eq!(MyProgramInstrution::try_from(4), Ok(MyProgramInstrution::UnDelegate));
    assert_eq!(MyProgramInstrution::try_from(5), Err(EscrowError::MalformedPayload));
    assert_eq!(MyProgramInstrution::try_from(255), Err(EscrowError::MalformedPayload));
}

#[test]
fn test_parse_instruction() {
    let (ix, payload) = parse_instruction(&vec![0u8, 7, 8, 9]).unwrap();
    assert_eq!(ix, MyProgramInstrution::Make);
    assert_eq!(payload, vec![7u8, 8, 9]);
    let (ix, payload) = parse_instruction(&vec![1u8]).unwrap();
    assert_eq!(ix, MyProgramInstrution::Take);
    assert!(payload.is_empty());
    assert_eq!(parse_instruction(&Vec::new()), Err(EscrowError::MalformedPayload));
}

#[test]
fn test_account_shape() {
    assert!(check_account_shape(&MyProgramInstrution::Make, 8).is_ok());
    assert_eq!(
        check_account_shape(&MyProgramInstrution::Make, 7),
        Err(EscrowError::AccountShapeError)
    );
    assert!(check_account_shape(&MyProgramInstrution::Take, 11).is_ok());
    assert!(check_account_shape(&MyProgramInstrution::Refund, 7).is_ok());
    assert!(check_account_shape(&MyProgramInstrution::Delegate, 7).is_ok());
    assert!(check_account_shape(&MyProgramInstrution::UnDelegate, 6).is_ok());
    assert_eq!(
        check_account_shape(&MyProgramInstrution::UnDelegate, 7),
        Err(EscrowError::AccountShapeError)
    );
}

#[test]
fn test_derivation_is_deterministic() {
    let maker = [2u8; 32];
    let seeds = escrow_seed_list(&maker);
    let (addr1, bump1) = find_program_address(&seeds, &PROGRAM_ID).unwrap();
    let (addr2, bump2) = find_program_address(&seeds, &PROGRAM_ID).unwrap();
    assert_eq!(addr1, addr2);
    assert_eq!(bump1, bump2);
    // the found salt recomputes to the same address
    let recomputed = create_program_address(&seeds, bump1, &PROGRAM_ID).unwrap();
    assert_eq!(recomputed, addr1);
    // no higher salt derives an address
    for b in (bump1 as u16 + 1)..=255u16 {
        assert!(create_program_address(&seeds, b as u8, &PROGRAM_ID).is_err());
    }
}

#[test]
fn test_derivation_binds_seeds_and_program() {
    let seeds_a = escrow_seed_list(&[2u8; 32]);
    let seeds_b = escrow_seed_list(&[3u8; 32]);
    let (addr_a, _) = find_program_address(&seeds_a, &PROGRAM_ID).unwrap();
    let (addr_b, _) = find_program_address(&seeds_b, &PROGRAM_ID).unwrap();
    assert_ne!(addr_a, addr_b);
    let (addr_c, _) = find_program_address(&seeds_a, &[11u8; 32]).unwrap();
    assert_ne!(addr_a, addr_c);
}

#[test]
fn test_escrow_codec_roundtrip() {
    let record = Escrow {
        maker: [2u8; 32],
        mint_a: [3u8; 32],
        mint_b: [4u8; 32],
        amount: 1_000_000,
        bump: 254,
    };
    let bytes = encode_escrow(&record);
    assert_eq!(bytes.len(), 105);
    assert_eq!(&bytes[0..32], &[2u8; 32]);
    assert_eq!(&bytes[96..104], &1_000_000u64.to_le_bytes());
    assert_eq!(bytes[104], 254);
    let back = Escrow::read(&bytes).unwrap();
    assert_eq!(back, record);
}

#[test]
fn test_escrow_read_short_buffer() {
    let bytes = vec![0u8; 104];
    assert_eq!(Escrow::read(&bytes), Err(EscrowError::DeserializationFailed));
}

#[test]
fn test_derived_address_is_a_digest() {
    // the derived address is a digest of the preimage, not a prefix of it:
    // the preimage starts with the seed tag and the maker id
    let maker = [2u8; 32];
    let seeds = escrow_seed_list(&maker);
    let (addr, _) = find_program_address(&seeds, &PROGRAM_ID).unwrap();
    let mut preimage_head = Vec::new();
    preimage_head.extend_from_slice(b"escrow");
    preimage_head.extend_from_slice(&maker[0..26]);
    assert_ne!(&addr[..], &preimage_head[..]);
}

#[test]
fn test_some_salt_is_rejected_somewhere() {
    // across many seed lists, at least one canonical salt sits below the
    // maximum, so the search really rejected curve points along the way
    let mut saw_lower_salt = false;
    for b in 0u8..30 {
        let seeds = escrow_seed_list(&[b; 32]);
        let (_, bump) = find_program_address(&seeds, &PROGRAM_ID).unwrap();
        if bump < 255 {
            saw_lower_salt = true;
        }
    }
    assert!(saw_lower_salt);
}
