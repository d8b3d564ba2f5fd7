use vstd::prelude::*;

use crate::accounts::{
    close_token_account, drain_account, spec_close_token_account, spec_drain_account,
    spec_token_transfer, token_transfer, Account, AcctView, TokenAccount, TokenAcctView,
};
use crate::derivation::{bump_usable, create_program_address, escrow_seed_list, escrow_seeds,
    spec_pda_address};
use crate::errors::EscrowError;
use crate::state::{spec_read_escrow, Escrow};
use crate::util::keys_equal;

verus! {

/// The accounts as Take leaves them.
pub struct TakeOutcomeView {
    pub maker: AcctView,
    pub taker_ata_a: TokenAcctView,
    pub taker_ata_b: TokenAcctView,
    pub maker_ata_b: TokenAcctView,
    pub vault: TokenAcctView,
    pub escrow: AcctView,
}

/// The accounts as Take leaves them: the counter-payment reached the
/// maker, the escrowed asset reached the taker, and both custody accounts
/// were destroyed with their rent forwarded to the maker.
pub struct TakeOutcome {
    pub maker: Account,
    pub taker_ata_a: TokenAccount,
    pub taker_ata_b: TokenAccount,
    pub maker_ata_b: TokenAccount,
    pub vault: TokenAccount,
    pub escrow: Account,
}

impl View for TakeOutcome {
    type V = TakeOutcomeView;

    open spec fn view(&self) -> TakeOutcomeView {
        TakeOutcomeView {
            maker: self.maker@,
            taker_ata_a: self.taker_ata_a@,
            taker_ata_b: self.taker_ata_b@,
            maker_ata_b: self.maker_ata_b@,
            vault: self.vault@,
            escrow: self.escrow@,
        }
    }
}

/// Settling an escrow, in order: read the record; the supplied asset ids
/// must match the stored ones; the record account's address must
/// recompute from `["escrow", maker]` and the stored salt; the record
/// account must be owned by this protocol; move the demanded `amount` of
/// `mint_b` from taker to maker under the taker's authority; move the
/// vault's whole balance to the taker under the derived authority; close
/// the vault and destroy the record account, forwarding both rents to the
/// maker. The buyer's payment moves before the seller's asset is
/// released; the first failing step rejects the whole invocation.
pub open spec fn take_transition(
    taker: Seq<u8>,
    maker: AcctView,
    mint_a: Seq<u8>,
    mint_b: Seq<u8>,
    taker_ata_a: TokenAcctView,
    taker_ata_b: TokenAcctView,
    maker_ata_b: TokenAcctView,
    vault: TokenAcctView,
    escrow: AcctView,
    program_id: Seq<u8>,
    system_program: Seq<u8>,
) -> Result<TakeOutcomeView, EscrowError> {
    match spec_read_escrow(escrow.data) {
        Err(e) => Err(e),
        Ok(record) => {
            if record.mint_a != mint_a || record.mint_b != mint_b {
                Err(EscrowError::AddressMismatch)
            } else if !bump_usable(escrow_seeds(maker.key), record.bump, program_id) {
                Err(EscrowError::AddressMismatch)
            } else if escrow.key != spec_pda_address(
                escrow_seeds(maker.key),
                record.bump,
                program_id,
            ) {
                Err(EscrowError::AddressMismatch)
            } else if escrow.owner != program_id {
                Err(EscrowError::Unauthorized)
            } else {
                match spec_token_transfer(taker_ata_b, maker_ata_b, taker, record.amount) {
                    Err(e) => Err(e),
                    Ok((tb_debited, mb_credited)) => {
                        match spec_token_transfer(vault, taker_ata_a, escrow.key, vault.amount) {
                            Err(e) => Err(e),
                            Ok((vault_emptied, ta_credited)) => {
                                match spec_close_token_account(vault_emptied, maker, escrow.key) {
                                    Err(e) => Err(e),
                                    Ok((vault_closed, maker_rent1)) => {
                                        match spec_drain_account(
                                            escrow,
                                            maker_rent1,
                                            system_program,
                                        ) {
                                            Err(e) => Err(e),
                                            Ok((escrow_closed, maker_rent2)) => Ok(
                                                TakeOutcomeView {
                                                    maker: maker_rent2,
                                                    taker_ata_a: ta_credited,
                                                    taker_ata_b: tb_debited,
                                                    maker_ata_b: mb_credited,
                                                    vault: vault_closed,
                                                    escrow: escrow_closed,
                                                },
                                            ),
                                        }
                                    },
                                }
                            },
                        }
                    },
                }
            }
        },
    }
}

/// Settles an escrow atomically. On success the returned accounts replace
/// the supplied ones; on failure nothing is to be applied.
pub fn process_take(
    taker: &[u8; 32],
    maker: &Account,
    mint_a: &[u8; 32],
    mint_b: &[u8; 32],
    taker_ata_a: &TokenAccount,
    taker_ata_b: &TokenAccount,
    maker_ata_b: &TokenAccount,
    vault: &TokenAccount,
    escrow: &Account,
    program_id: &[u8; 32],
    system_program: &[u8; 32],
) -> (r: Result<TakeOutcome, EscrowError>)
    ensures
        match r {
            Ok(p) => take_transition(
                taker@,
                maker@,
                mint_a@,
                mint_b@,
                taker_ata_a@,
                taker_ata_b@,
                maker_ata_b@,
                vault@,
                escrow@,
                program_id@,
                system_program@,
            ) == Ok::<_, EscrowError>(p@),
            Err(e) => take_transition(
                taker@,
                maker@,
                mint_a@,
                mint_b@,
                taker_ata_a@,
                taker_ata_b@,
                maker_ata_b@,
                vault@,
                escrow@,
                program_id@,
                system_program@,
            ) == Err::<TakeOutcomeView, _>(e),
        },
        r matches Ok(p) ==> {
            &&& (spec_read_escrow(escrow@.data) matches Ok(record) && p.maker_ata_b@.amount
                == maker_ata_b@.amount + record.amount && p.taker_ata_b@.amount
                == taker_ata_b@.amount - record.amount)
            &&& p.taker_ata_a@.amount == taker_ata_a@.amount + vault@.amount
            &&& p.vault@.amount == 0 && p.vault@.lamports == 0
            &&& p.escrow@.lamports == 0 && p.escrow@.data.len() == 0
            &&& p.escrow@.owner == system_program@
            &&& p.maker@.lamports == maker@.lamports + vault@.lamports + escrow@.lamports
        },
{
    let record = match Escrow::read(&escrow.data) {
        Ok(rec) => rec,
        Err(e) => {
            return Err(e);
        },
    };
    if !(keys_equal(&record.mint_a, mint_a) && keys_equal(&record.mint_b, mint_b)) {
        return Err(EscrowError::AddressMismatch);
    }
    let seeds = escrow_seed_list(&maker.key);
    let pda = match create_program_address(&seeds, record.bump, program_id) {
        Ok(a) => a,
        Err(e) => {
            return Err(e);
        },
    };
    if !keys_equal(&escrow.key, &pda) {
        return Err(EscrowError::AddressMismatch);
    }
    if !keys_equal(&escrow.owner, program_id) {
        return Err(EscrowError::Unauthorized);
    }
    let (tb_debited, mb_credited) = match token_transfer(
        taker_ata_b,
        maker_ata_b,
        taker,
        record.amount,
    ) {
        Ok(p) => p,
        Err(e) => {
            return Err(e);
        },
    };
    let (vault_emptied, ta_credited) = match token_transfer(
        vault,
        taker_ata_a,
        &escrow.key,
        vault.amount,
    ) {
        Ok(p) => p,
        Err(e) => {
            return Err(e);
        },
    };
    let (vault_closed, maker_rent1) = match close_token_account(&vault_emptied, maker, &escrow.key)
        {
        Ok(p) => p,
        Err(e) => {
            return Err(e);
        },
    };
    let (escrow_closed, maker_rent2) = match drain_account(escrow, &maker_rent1, system_program) {
        Ok(p) => p,
        Err(e) => {
            return Err(e);
        },
    };
    Ok(
        TakeOutcome {
            maker: maker_rent2,
            taker_ata_a: ta_credited,
            taker_ata_b: tb_debited,
            maker_ata_b: mb_credited,
            vault: vault_closed,
            escrow: escrow_closed,
        },
    )
}

} // verus!
