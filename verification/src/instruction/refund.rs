use vstd::prelude::*;

use crate::accounts::{
    close_token_account, drain_account, spec_close_token_account, spec_drain_account,
    spec_token_transfer, token_transfer, Account, AcctView, TokenAccount, TokenAcctView,
};
use crate::derivation::{bump_usable, create_program_address, escrow_seed_list, escrow_seeds,
    spec_pda_address};
use crate::errors::EscrowError;
use crate::state::{spec_read_escrow, Escrow};
use crate::util::keys_equal;

verus! {

/// The accounts as Refund leaves them.
pub struct RefundOutcomeView {
    pub maker: AcctView,
    pub maker_ata_a: TokenAcctView,
    pub vault: TokenAcctView,
    pub escrow: AcctView,
}

/// The accounts as Refund leaves them: the escrowed asset went back to
/// the maker and both custody accounts were destroyed with their rent
/// forwarded to the maker.
pub struct RefundOutcome {
    pub maker: Account,
    pub maker_ata_a: TokenAccount,
    pub vault: TokenAccount,
    pub escrow: Account,
}

impl View for RefundOutcome {
    type V = RefundOutcomeView;

    open spec fn view(&self) -> RefundOutcomeView {
        RefundOutcomeView {
            maker: self.maker@,
            maker_ata_a: self.maker_ata_a@,
            vault: self.vault@,
            escrow: self.escrow@,
        }
    }
}

/// Cancelling an escrow, in order: read the record; the supplied `mint_a`
/// must match the stored one; the record account's address must recompute
/// from `["escrow", maker]` and the stored salt — the re-derivation is the
/// protocol's authorization proof for the refund; as defence in depth the
/// stored maker must equal the supplied one; the record account must be
/// owned by this protocol; move the vault's whole balance back to the
/// maker's holding under the derived authority; close the vault and
/// destroy the record account, forwarding both rents to the maker. No
/// `mint_b` balance moves. The first failing step rejects the whole
/// invocation.
pub open spec fn refund_transition(
    maker: AcctView,
    mint_a: Seq<u8>,
    maker_ata_a: TokenAcctView,
    vault: TokenAcctView,
    escrow: AcctView,
    program_id: Seq<u8>,
    system_program: Seq<u8>,
) -> Result<RefundOutcomeView, EscrowError> {
    match spec_read_escrow(escrow.data) {
        Err(e) => Err(e),
        Ok(record) => {
            if record.mint_a != mint_a {
                Err(EscrowError::AddressMismatch)
            } else if !bump_usable(escrow_seeds(maker.key), record.bump, program_id) {
                Err(EscrowError::AddressMismatch)
            } else if escrow.key != spec_pda_address(
                escrow_seeds(maker.key),
                record.bump,
                program_id,
            ) {
                Err(EscrowError::AddressMismatch)
            } else if record.maker != maker.key {
                Err(EscrowError::Unauthorized)
            } else if escrow.owner != program_id {
                Err(EscrowError::Unauthorized)
            } else {
                match spec_token_transfer(vault, maker_ata_a, escrow.key, vault.amount) {
                    Err(e) => Err(e),
                    Ok((vault_emptied, ata_credited)) => {
                        match spec_close_token_account(vault_emptied, maker, escrow.key) {
                            Err(e) => Err(e),
                            Ok((vault_closed, maker_rent1)) => {
                                match spec_drain_account(escrow, maker_rent1, system_program) {
                                    Err(e) => Err(e),
                                    Ok((escrow_closed, maker_rent2)) => Ok(
                                        RefundOutcomeView {
                                            maker: maker_rent2,
                                            maker_ata_a: ata_credited,
                                            vault: vault_closed,
                                            escrow: escrow_closed,
                                        },
                                    ),
                                }
                            },
                        }
                    },
                }
            }
        },
    }
}

/// Cancels an escrow and returns custody to the maker. On success the
/// returned accounts replace the supplied ones; on failure nothing is to
/// be applied.
pub fn process_refund(
    maker: &Account,
    mint_a: &[u8; 32],
    maker_ata_a: &TokenAccount,
    vault: &TokenAccount,
    escrow: &Account,
    program_id: &[u8; 32],
    system_program: &[u8; 32],
) -> (r: Result<RefundOutcome, EscrowError>)
    ensures
        match r {
            Ok(p) => refund_transition(
                maker@,
                mint_a@,
                maker_ata_a@,
                vault@,
                escrow@,
                program_id@,
                system_program@,
            ) == Ok::<_, EscrowError>(p@),
            Err(e) => refund_transition(
                maker@,
                mint_a@,
                maker_ata_a@,
                vault@,
                escrow@,
                program_id@,
                system_program@,
            ) == Err::<RefundOutcomeView, _>(e),
        },
        r matches Ok(p) ==> {
            &&& p.maker_ata_a@.amount == maker_ata_a@.amount + vault@.amount
            &&& p.maker_ata_a@.mint == maker_ata_a@.mint
            &&& p.vault@.amount == 0 && p.vault@.lamports == 0
            &&& p.escrow@.lamports == 0 && p.escrow@.data.len() == 0
            &&& p.escrow@.owner == system_program@
            &&& p.maker@.lamports == maker@.lamports + vault@.lamports + escrow@.lamports
        },
{
    let record = match Escrow::read(&escrow.data) {
        Ok(rec) => rec,
        Err(e) => {
            return Err(e);
        },
    };
    if !keys_equal(&record.mint_a, mint_a) {
        return Err(EscrowError::AddressMismatch);
    }
    let seeds = escrow_seed_list(&maker.key);
    let pda = match create_program_address(&seeds, record.bump, program_id) {
        Ok(a) => a,
        Err(e) => {
            return Err(e);
        },
    };
    if !keys_equal(&escrow.key, &pda) {
        return Err(EscrowError::AddressMismatch);
    }
    if !keys_equal(&record.maker, &maker.key) {
        return Err(EscrowError::Unauthorized);
    }
    if !keys_equal(&escrow.owner, program_id) {
        return Err(EscrowError::Unauthorized);
    }
    let (vault_emptied, ata_credited) = match token_transfer(
        vault,
        maker_ata_a,
        &escrow.key,
        vault.amount,
    ) {
        Ok(p) => p,
        Err(e) => {
            return Err(e);
        },
    };
    let (vault_closed, maker_rent1) = match close_token_account(&vault_emptied, maker, &escrow.key)
        {
        Ok(p) => p,
        Err(e) => {
            return Err(e);
        },
    };
    let (escrow_closed, maker_rent2) = match drain_account(escrow, &maker_rent1, system_program) {
        Ok(p) => p,
        Err(e) => {
            return Err(e);
        },
    };
    Ok(
        RefundOutcome {
            maker: maker_rent2,
            maker_ata_a: ata_credited,
            vault: vault_closed,
            escrow: escrow_closed,
        },
    )
}

} // verus!
