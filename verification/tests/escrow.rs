use escrow_custody::accounts::{Account, TokenAccount};
use escrow_custody::derivation::{escrow_seed_list, find_program_address};
use escrow_custody::errors::EscrowError;
use escrow_custody::instruction::make::{parse_make_payload, process_make, MakeEscrowIx};
use escrow_custody::instruction::refund::process_refund;
use escrow_custody::instruction::take::process_take;
use escrow_custody::state::{encode_escrow, Escrow};

const PROGRAM_ID: [u8; 32] = [9u8; 32];
const SYSTEM_PROGRAM: [u8; 32] = [0u8; 32];
const RENT_MIN: u64 = 2_000_000;
const VAULT_RENT: u64 = 2_039_280;

fn key(b: u8) -> [u8; 32] {
    [b; 32]
}

fn native(k: [u8; 32], lamports: u64) -> Account {
    Account { key: k, lamports, owner: SYSTEM_PROGRAM, data: Vec::new() }
}

fn token(k: [u8; 32], mint: [u8; 32], authority: [u8; 32], amount: u64) -> TokenAccount {
    TokenAccount { key: k, mint, authority, amount, lamports: VAULT_RENT }
}

struct MakeSetup {
    maker: Account,
    mint_x: [u8; 32],
    mint_y: [u8; 32],
    maker_ata: TokenAccount,
    vault: TokenAccount,
    escrow: Account,
    bump: u8,
    ix: MakeEscrowIx,
}

fn make_setup() -> MakeSetup {
    let maker_key = key(0x02);
    let mint_x = key(0x03);
    let mint_y = key(0x04);
    let seeds = escrow_seed_list(&maker_key);
    let (escrow_pda, bump) = find_program_address(&seeds, &PROGRAM_ID).unwrap();
    let maker = native(maker_key, 1_000_000_000);
    let maker_ata = token(key(0x05), mint_x, maker_key, 100_000_000);
    let vault = token(key(0x06), mint_x, escrow_pda, 0);
    let escrow = Account { key: escrow_pda, lamports: 0, owner: SYSTEM_PROGRAM, data: Vec::new() };
    let mut payload = vec![bump];
    payload.extend_from_slice(&1_000_000u64.to_le_bytes());
    payload.extend_from_slice(&1_000_000u64.to_le_bytes());
    let ix = parse_make_payload(&payload).unwrap();
    MakeSetup { maker, mint_x, mint_y, maker_ata, vault, escrow, bump, ix }
}

#[test]
fn test_make() {
    let s = make_setup();
    let out = process_make(
        &s.maker,
        &s.mint_x,
        &s.mint_y,
        &s.maker_ata,
        &s.vault,
        &s.escrow,
        &PROGRAM_ID,
        RENT_MIN,
        &s.ix,
    )
    .unwrap();
    assert_eq!(out.vault.amount, 1_000_000);
    assert_eq!(out.maker_ata.amount, 99_000_000);
    assert_eq!(out.escrow.owner, PROGRAM_ID);
    assert_eq!(out.escrow.lamports, RENT_MIN);
    assert_eq!(out.maker.lamports, 1_000_000_000 - RENT_MIN);
    let expected = encode_escrow(&Escrow {
        maker: s.maker.key,
        mint_a: s.mint_x,
        mint_b: s.mint_y,
        amount: 1_000_000,
        bump: s.bump,
    });
    assert_eq!(out.escrow.data, expected);
    assert_eq!(out.escrow.data.len(), 105);
}

#[test]
fn test_make_payload_too_short() {
    assert_eq!(parse_make_payload(&vec![0u8; 16]), Err(EscrowError::MalformedPayload));
}

#[test]
fn test_make_already_initialized() {
    let mut s = make_setup();
    s.escrow.owner = PROGRAM_ID;
    let r = process_make(
        &s.maker,
        &s.mint_x,
        &s.mint_y,
        &s.maker_ata,
        &s.vault,
        &s.escrow,
        &PROGRAM_ID,
        RENT_MIN,
        &s.ix,
    );
    assert!(matches!(r, Err(EscrowError::AlreadyInitialized)));
}

#[test]
fn test_make_wrong_vault_authority() {
    let mut s = make_setup();
    s.vault.authority = key(0x55);
    let r = process_make(
        &s.maker,
        &s.mint_x,
        &s.mint_y,
        &s.maker_ata,
        &s.vault,
        &s.escrow,
        &PROGRAM_ID,
        RENT_MIN,
        &s.ix,
    );
    assert!(matches!(r, Err(EscrowError::Unauthorized)));
}

#[test]
fn test_make_wrong_escrow_address() {
    let s = make_setup();
    let mut escrow = s.escrow.clone();
    escrow.key = key(0x66);
    let r = process_make(
        &s.maker,
        &s.mint_x,
        &s.mint_y,
        &s.maker_ata,
        &s.vault,
        &escrow,
        &PROGRAM_ID,
        RENT_MIN,
        &s.ix,
    );
    assert!(matches!(r, Err(EscrowError::AddressMismatch)));
}

#[test]
fn test_make_insufficient_rent() {
    let mut s = make_setup();
    s.maker.lamports = RENT_MIN - 1;
    let r = process_make(
        &s.maker,
        &s.mint_x,
        &s.mint_y,
        &s.maker_ata,
        &s.vault,
        &s.escrow,
        &PROGRAM_ID,
        RENT_MIN,
        &s.ix,
    );
    assert!(matches!(r, Err(EscrowError::InsufficientFunds)));
}

#[test]
fn test_make_insufficient_tokens() {
    let mut s = make_setup();
    s.maker_ata.amount = 999_999;
    let r = process_make(
        &s.maker,
        &s.mint_x,
        &s.mint_y,
        &s.maker_ata,
        &s.vault,
        &s.escrow,
        &PROGRAM_ID,
        RENT_MIN,
        &s.ix,
    );
    assert!(matches!(r, Err(EscrowError::InsufficientFunds)));
}

fn made() -> (MakeSetup, Account, TokenAccount, TokenAccount, Account) {
    let s = make_setup();
    let out = process_make(
        &s.maker,
        &s.mint_x,
        &s.mint_y,
        &s.maker_ata,
        &s.vault,
        &s.escrow,
        &PROGRAM_ID,
        RENT_MIN,
        &s.ix,
    )
    .unwrap();
    (s, out.maker, out.maker_ata, out.vault, out.escrow)
}

#[test]
fn test_take() {
    let (s, maker, _maker_ata, vault, escrow) = made();
    let taker_key = key(0x07);
    let taker_ata_a = token(key(0x11), s.mint_x, taker_key, 0);
    let taker_ata_b = token(key(0x12), s.mint_y, taker_key, 5_000_000);
    let maker_ata_b = token(key(0x13), s.mint_y, maker.key, 0);
    let out = process_take(
        &taker_key,
        &maker,
        &s.mint_x,
        &s.mint_y,
        &taker_ata_a,
        &taker_ata_b,
        &maker_ata_b,
        &vault,
        &escrow,
        &PROGRAM_ID,
        &SYSTEM_PROGRAM,
    )
    .unwrap();
    assert_eq!(out.maker_ata_b.amount, 1_000_000);
    assert_eq!(out.taker_ata_b.amount, 4_000_000);
    assert_eq!(out.taker_ata_a.amount, 1_000_000);
    assert_eq!(out.vault.amount, 0);
    assert_eq!(out.vault.lamports, 0);
    assert_eq!(out.escrow.lamports, 0);
    assert_eq!(out.escrow.data.len(), 0);
    assert_eq!(out.escrow.owner, SYSTEM_PROGRAM);
    assert_eq!(out.maker.lamports, maker.lamports + vault.lamports + escrow.lamports);
}

#[test]
fn test_take_mint_mismatch() {
    let (s, maker, _maker_ata, vault, escrow) = made();
    let taker_key = key(0x07);
    let wrong_mint = key(0x44);
    let taker_ata_a = token(key(0x11), s.mint_x, taker_key, 0);
    let taker_ata_b = token(key(0x12), wrong_mint, taker_key, 5_000_000);
    let maker_ata_b = token(key(0x13), wrong_mint, maker.key, 0);
    let r = process_take(
        &taker_key,
        &maker,
        &s.mint_x,
        &wrong_mint,
        &taker_ata_a,
        &taker_ata_b,
        &maker_ata_b,
        &vault,
        &escrow,
        &PROGRAM_ID,
        &SYSTEM_PROGRAM,
    );
    assert!(matches!(r, Err(EscrowError::AddressMismatch)));
}

#[test]
fn test_take_insufficient_payment() {
    let (s, maker, _maker_ata, vault, escrow) = made();
    let taker_key = key(0x07);
    let taker_ata_a = token(key(0x11), s.mint_x, taker_key, 0);
    let taker_ata_b = token(key(0x12), s.mint_y, taker_key, 999_999);
    let maker_ata_b = token(key(0x13), s.mint_y, maker.key, 0);
    let r = process_take(
        &taker_key,
        &maker,
        &s.mint_x,
        &s.mint_y,
        &taker_ata_a,
        &taker_ata_b,
        &maker_ata_b,
        &vault,
        &escrow,
        &PROGRAM_ID,
        &SYSTEM_PROGRAM,
    );
    assert!(matches!(r, Err(EscrowError::InsufficientFunds)));
}

#[test]
fn test_take_short_record() {
    let (s, maker, _maker_ata, vault, mut escrow) = made();
    escrow.data.truncate(50);
    let taker_key = key(0x07);
    let taker_ata_a = token(key(0x11), s.mint_x, taker_key, 0);
    let taker_ata_b = token(key(0x12), s.mint_y, taker_key, 5_000_000);
    let maker_ata_b = token(key(0x13), s.mint_y, maker.key, 0);
    let r = process_take(
        &taker_key,
        &maker,
        &s.mint_x,
        &s.mint_y,
        &taker_ata_a,
        &taker_ata_b,
        &maker_ata_b,
        &vault,
        &escrow,
        &PROGRAM_ID,
        &SYSTEM_PROGRAM,
    );
    assert!(matches!(r, Err(EscrowError::DeserializationFailed)));
}

#[test]
fn test_refund() {
    let (s, maker, maker_ata, vault, escrow) = made();
    let out = process_refund(
        &maker,
        &s.mint_x,
        &maker_ata,
        &vault,
        &escrow,
        &PROGRAM_ID,
        &SYSTEM_PROGRAM,
    )
    .unwrap();
    assert_eq!(out.maker_ata_a.amount, 100_000_000);
    assert_eq!(out.vault.amount, 0);
    assert_eq!(out.vault.lamports, 0);
    assert_eq!(out.escrow.lamports, 0);
    assert_eq!(out.escrow.data.len(), 0);
    assert_eq!(out.escrow.owner, SYSTEM_PROGRAM);
    assert_eq!(out.maker.lamports, maker.lamports + vault.lamports + escrow.lamports);
}

#[test]
fn test_refund_mint_mismatch() {
    let (_s, maker, maker_ata, vault, escrow) = made();
    let wrong_mint = key(0x44);
    let r = process_refund(
        &maker,
        &wrong_mint,
        &maker_ata,
        &vault,
        &escrow,
        &PROGRAM_ID,
        &SYSTEM_PROGRAM,
    );
    assert!(matches!(r, Err(EscrowError::AddressMismatch)));
}

#[test]
fn test_refund_wrong_maker_in_record() {
    let (s, maker, maker_ata, vault, mut escrow) = made();
    let forged = encode_escrow(&Escrow {
        maker: key(0x77),
        mint_a: s.mint_x,
        mint_b: s.mint_y,
        amount: 1_000_000,
        bump: s.bump,
    });
    escrow.data = forged;
    let r = process_refund(
        &maker,
        &s.mint_x,
        &maker_ata,
        &vault,
        &escrow,
        &PROGRAM_ID,
        &SYSTEM_PROGRAM,
    );
    assert!(matches!(r, Err(EscrowError::Unauthorized)));
}

#[test]
fn test_refund_wrong_caller() {
    let (s, _maker, maker_ata, vault, escrow) = made();
    let imposter = native(key(0x78), 1_000_000_000);
    let r = process_refund(
        &imposter,
        &s.mint_x,
        &maker_ata,
        &vault,
        &escrow,
        &PROGRAM_ID,
        &SYSTEM_PROGRAM,
    );
    assert!(matches!(r, Err(EscrowError::AddressMismatch)));
}
