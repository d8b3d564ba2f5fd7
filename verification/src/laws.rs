use vstd::prelude::*;

use crate::accounts::{AcctView, TokenAcctView};
use crate::derivation::spec_find_pda;
use crate::derivation::escrow_seeds;
use crate::errors::EscrowError;
use crate::instruction::delegate::{delegate_transition, DelegateArgsView, DelegateOutcomeView};
use crate::instruction::make::{make_transition, MakeOutcomeView};
use crate::instruction::refund::{refund_transition, RefundOutcomeView};
use crate::instruction::take::{take_transition, TakeOutcomeView};
use crate::instruction::undelegate::{undelegate_transition, UndelegateOutcomeView};
use crate::state::spec_read_escrow;

verus! {

/// Law: relocating custody and then repossessing the same subject account
/// reproduces the exact pre-relocation byte content, returns the subject
/// to this protocol's ownership, and leaves the staging buffer with zero
/// length and zero balance. A rejected invocation of either half carries
/// no post-state, so the law speaks of the invocations that succeed.
pub proof fn delegate_undelegate_round_trip(
    maker: AcctView,
    subject: AcctView,
    buffer: AcctView,
    program_id: Seq<u8>,
    delegation_program: Seq<u8>,
    system_program: Seq<u8>,
    rent_delegate: u64,
    rent_undelegate: u64,
    args: DelegateArgsView,
    d: DelegateOutcomeView,
    u: UndelegateOutcomeView,
)
    requires
        delegate_transition(
            maker,
            subject,
            buffer,
            program_id,
            delegation_program,
            system_program,
            rent_delegate,
            args,
        ) == Ok::<DelegateOutcomeView, EscrowError>(d),
        undelegate_transition(
            d.maker,
            d.subject,
            d.buffer,
            program_id,
            delegation_program,
            system_program,
            rent_undelegate,
        ) == Ok::<UndelegateOutcomeView, EscrowError>(u),
    ensures
        u.subject.key == subject.key,
        u.subject.data == subject.data,
        u.subject.owner == program_id,
        u.buffer.data.len() == 0,
        u.buffer.lamports == 0,
{
}

/// Law: opening an escrow whose backing account this protocol already
/// owns is rejected as `AlreadyInitialized`, whatever the amounts; the
/// rejection carries no post-state, so no balance changes.
pub proof fn remake_already_initialized_rejected(
    maker: AcctView,
    mint_a: Seq<u8>,
    mint_b: Seq<u8>,
    maker_ata: TokenAcctView,
    vault: TokenAcctView,
    escrow: AcctView,
    program_id: Seq<u8>,
    rent_min: u64,
    amount_a: u64,
    amount_b: u64,
    pda: Seq<u8>,
    bump: u8,
)
    requires
        spec_find_pda(escrow_seeds(maker.key), program_id) == Some((pda, bump)),
        escrow.key == pda,
        vault.authority == pda,
        escrow.owner == program_id,
    ensures
        make_transition(
            maker,
            mint_a,
            mint_b,
            maker_ata,
            vault,
            escrow,
            program_id,
            rent_min,
            amount_a,
            amount_b,
        ) == Err::<MakeOutcomeView, EscrowError>(EscrowError::AlreadyInitialized),
{
}

/// Law: a settlement whose supplied asset ids do not both match the
/// stored record is rejected as `AddressMismatch` before any transfer;
/// the rejection carries no post-state, so no balance changes.
pub proof fn take_mint_mismatch_rejected(
    taker: Seq<u8>,
    maker: AcctView,
    mint_a: Seq<u8>,
    mint_b: Seq<u8>,
    taker_ata_a: TokenAcctView,
    taker_ata_b: TokenAcctView,
    maker_ata_b: TokenAcctView,
    vault: TokenAcctView,
    escrow: AcctView,
    program_id: Seq<u8>,
    system_program: Seq<u8>,
)
    requires
        spec_read_escrow(escrow.data) matches Ok(record) && (record.mint_a != mint_a
            || record.mint_b != mint_b),
    ensures
        take_transition(
            taker,
            maker,
            mint_a,
            mint_b,
            taker_ata_a,
            taker_ata_b,
            maker_ata_b,
            vault,
            escrow,
            program_id,
            system_program,
        ) == Err::<TakeOutcomeView, EscrowError>(EscrowError::AddressMismatch),
{
}

/// Law: a cancellation whose supplied `mint_a` does not match the stored
/// record is rejected as `AddressMismatch` before any transfer; the
/// rejection carries no post-state, so no balance changes.
pub proof fn refund_mint_mismatch_rejected(
    maker: AcctView,
    mint_a: Seq<u8>,
    maker_ata_a: TokenAcctView,
    vault: TokenAcctView,
    escrow: AcctView,
    program_id: Seq<u8>,
    system_program: Seq<u8>,
)
    requires
        spec_read_escrow(escrow.data) matches Ok(record) && record.mint_a != mint_a,
    ensures
        refund_transition(
            maker,
            mint_a,
            maker_ata_a,
            vault,
            escrow,
            program_id,
            system_program,
        ) == Err::<RefundOutcomeView, EscrowError>(EscrowError::AddressMismatch),
{
}


/// Law: a successful Make conserves balances: the record account's rent
/// came out of the maker's native balance, and the escrowed tokens moved
/// from the maker's holding into the vault; nothing is created or
/// discarded.
pub proof fn make_conserves_balances(
    maker: AcctView,
    mint_a: Seq<u8>,
    mint_b: Seq<u8>,
    maker_ata: TokenAcctView,
    vault: TokenAcctView,
    escrow: AcctView,
    program_id: Seq<u8>,
    rent_min: u64,
    amount_a: u64,
    amount_b: u64,
    p: MakeOutcomeView,
)
    requires
        make_transition(
            maker,
            mint_a,
            mint_b,
            maker_ata,
            vault,
            escrow,
            program_id,
            rent_min,
            amount_a,
            amount_b,
        ) == Ok::<MakeOutcomeView, EscrowError>(p),
    ensures
        p.maker.lamports + p.escrow.lamports == maker.lamports + escrow.lamports,
        p.maker_ata.amount + p.vault.amount == maker_ata.amount + vault.amount,
{
}

/// Law: a successful Take conserves balances: every native balance of the
/// two destroyed accounts reaches the maker, and each asset's total over
/// the holdings it moves between is unchanged.
pub proof fn take_conserves_balances(
    taker: Seq<u8>,
    maker: AcctView,
    mint_a: Seq<u8>,
    mint_b: Seq<u8>,
    taker_ata_a: TokenAcctView,
    taker_ata_b: TokenAcctView,
    maker_ata_b: TokenAcctView,
    vault: TokenAcctView,
    escrow: AcctView,
    program_id: Seq<u8>,
    system_program: Seq<u8>,
    p: TakeOutcomeView,
)
    requires
        take_transition(
            taker,
            maker,
            mint_a,
            mint_b,
            taker_ata_a,
            taker_ata_b,
            maker_ata_b,
            vault,
            escrow,
            program_id,
            system_program,
        ) == Ok::<TakeOutcomeView, EscrowError>(p),
    ensures
        p.maker.lamports + p.vault.lamports + p.escrow.lamports == maker.lamports + vault.lamports
            + escrow.lamports,
        p.taker_ata_a.amount + p.vault.amount == taker_ata_a.amount + vault.amount,
        p.taker_ata_b.amount + p.maker_ata_b.amount == taker_ata_b.amount + maker_ata_b.amount,
{
}

/// Law: a successful Refund conserves balances: the vault's tokens all
/// reach the maker's holding and both rents reach the maker.
pub proof fn refund_conserves_balances(
    maker: AcctView,
    mint_a: Seq<u8>,
    maker_ata_a: TokenAcctView,
    vault: TokenAcctView,
    escrow: AcctView,
    program_id: Seq<u8>,
    system_program: Seq<u8>,
    p: RefundOutcomeView,
)
    requires
        refund_transition(
            maker,
            mint_a,
            maker_ata_a,
            vault,
            escrow,
            program_id,
            system_program,
        ) == Ok::<RefundOutcomeView, EscrowError>(p),
    ensures
        p.maker.lamports + p.vault.lamports + p.escrow.lamports == maker.lamports + vault.lamports
            + escrow.lamports,
        p.maker_ata_a.amount + p.vault.amount == maker_ata_a.amount + vault.amount,
{
}

} // verus!
