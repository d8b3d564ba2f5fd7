use vstd::prelude::*;

use crate::accounts::{
    create_account, spec_create_account, spec_token_transfer, token_transfer, Account, AcctView,
    TokenAccount, TokenAcctView,
};
use crate::derivation::{escrow_seed_list, escrow_seeds, find_program_address, spec_find_pda};
use crate::errors::EscrowError;
use crate::state::{
    lemma_escrow_codec_roundtrip, spec_encode_escrow, spec_read_escrow, Escrow, EscrowView,
    ESCROW_LEN,
};
use crate::util::keys_equal;

verus! {

/// The Make instruction's payload: the caller-precomputed salt byte, the
/// quantity of `mint_a` escrowed, and the quantity of `mint_b` demanded.
#[derive(Clone, Copy, Debug, PartialEq, Eq, Structural)]
pub struct MakeEscrowIx {
    pub bump: u8,
    pub amount_a: u64,
    pub amount_b: u64,
}

/// The Make payload layout: one salt byte, then two 8-byte little-endian
/// amounts; 17 bytes in all.
pub open spec fn spec_parse_make_payload(d: Seq<u8>) -> Result<MakeEscrowIx, EscrowError> {
    if d.len() < 17 {
        Err(EscrowError::MalformedPayload)
    } else {
        Ok(
            MakeEscrowIx {
                bump: d[0],
                amount_a: vstd::bytes::spec_u64_from_le_bytes(d.subrange(1, 9)),
                amount_b: vstd::bytes::spec_u64_from_le_bytes(d.subrange(9, 17)),
            },
        )
    }
}

/// Decodes the Make payload; `MalformedPayload` if and only if the bytes
/// are shorter than the fixed 17-byte layout.
pub fn parse_make_payload(data: &Vec<u8>) -> (r: Result<MakeEscrowIx, EscrowError>)
    ensures
        r == spec_parse_make_payload(data@),
{
    if data.len() < 17 {
        return Err(EscrowError::MalformedPayload);
    }
    let bump = data[0];
    let amount_a = vstd::bytes::u64_from_le_bytes(
        vstd::slice::slice_subrange(data.as_slice(), 1, 9),
    );
    let amount_b = vstd::bytes::u64_from_le_bytes(
        vstd::slice::slice_subrange(data.as_slice(), 9, 17),
    );
    Ok(MakeEscrowIx { bump, amount_a, amount_b })
}

/// The accounts as Make leaves them.
pub struct MakeOutcomeView {
    pub maker: AcctView,
    pub maker_ata: TokenAcctView,
    pub vault: TokenAcctView,
    pub escrow: AcctView,
}

/// The accounts as Make leaves them: the maker funded the record account,
/// the escrowed asset moved into the vault, and the record was written.
pub struct MakeOutcome {
    pub maker: Account,
    pub maker_ata: TokenAccount,
    pub vault: TokenAccount,
    pub escrow: Account,
}

impl View for MakeOutcome {
    type V = MakeOutcomeView;

    open spec fn view(&self) -> MakeOutcomeView {
        MakeOutcomeView {
            maker: self.maker@,
            maker_ata: self.maker_ata@,
            vault: self.vault@,
            escrow: self.escrow@,
        }
    }
}

/// Opening an escrow, in order: derive the record address from
/// `["escrow", maker]`; the supplied record account must sit at it; the
/// vault's authority must be that same derived address; the record account
/// must not already be owned by this protocol; provision it at the
/// rent-exempt minimum for the fixed record size; write the record with
/// the demanded `amount_b` and the canonical salt; move `amount_a` from
/// the maker's holding into the vault under the maker's own authority.
/// The first failing step rejects the whole invocation.
pub open spec fn make_transition(
    maker: AcctView,
    mint_a: Seq<u8>,
    mint_b: Seq<u8>,
    maker_ata: TokenAcctView,
    vault: TokenAcctView,
    escrow: AcctView,
    program_id: Seq<u8>,
    rent_min: u64,
    amount_a: u64,
    amount_b: u64,
) -> Result<MakeOutcomeView, EscrowError> {
    match spec_find_pda(escrow_seeds(maker.key), program_id) {
        None => Err(EscrowError::AddressMismatch),
        Some((pda, bump)) => {
            if escrow.key != pda {
                Err(EscrowError::AddressMismatch)
            } else if vault.authority != pda {
                Err(EscrowError::Unauthorized)
            } else if escrow.owner == program_id {
                Err(EscrowError::AlreadyInitialized)
            } else {
                match spec_create_account(maker, escrow, rent_min, 105, program_id) {
                    Err(e) => Err(e),
                    Ok((maker_paid, escrow_created)) => {
                        let record = EscrowView {
                            maker: maker.key,
                            mint_a: mint_a,
                            mint_b: mint_b,
                            amount: amount_b,
                            bump: bump,
                        };
                        let escrow_written = AcctView {
                            data: spec_encode_escrow(record),
                            ..escrow_created
                        };
                        match spec_token_transfer(maker_ata, vault, maker.key, amount_a) {
                            Err(e) => Err(e),
                            Ok((ata_debited, vault_funded)) => Ok(
                                MakeOutcomeView {
                                    maker: maker_paid,
                                    maker_ata: ata_debited,
                                    vault: vault_funded,
                                    escrow: escrow_written,
                                },
                            ),
                        }
                    },
                }
            }
        },
    }
}

/// Opens an escrow. On success the returned accounts replace the supplied
/// ones; on failure nothing is to be applied. The payload's salt byte is
/// accepted but the canonical salt is derived afresh and stored.
pub fn process_make(
    maker: &Account,
    mint_a: &[u8; 32],
    mint_b: &[u8; 32],
    maker_ata: &TokenAccount,
    vault: &TokenAccount,
    escrow: &Account,
    program_id: &[u8; 32],
    rent_min: u64,
    ix: &MakeEscrowIx,
) -> (r: Result<MakeOutcome, EscrowError>)
    ensures
        match r {
            Ok(p) => make_transition(
                maker@,
                mint_a@,
                mint_b@,
                maker_ata@,
                vault@,
                escrow@,
                program_id@,
                rent_min,
                ix.amount_a,
                ix.amount_b,
            ) == Ok::<_, EscrowError>(p@),
            Err(e) => make_transition(
                maker@,
                mint_a@,
                mint_b@,
                maker_ata@,
                vault@,
                escrow@,
                program_id@,
                rent_min,
                ix.amount_a,
                ix.amount_b,
            ) == Err::<MakeOutcomeView, _>(e),
        },
        r matches Ok(p) ==> {
            &&& p.vault@.amount == vault@.amount + ix.amount_a
            &&& p.maker_ata@.amount == maker_ata@.amount - ix.amount_a
            &&& p.escrow@.owner == program_id@
            &&& p.escrow@.lamports == rent_min
            &&& p.maker@.lamports == maker@.lamports - rent_min
            &&& (spec_read_escrow(p.escrow@.data) matches Ok(rec) && rec.maker == maker@.key
                && rec.mint_a == mint_a@ && rec.mint_b == mint_b@ && rec.amount == ix.amount_b)
        },
{
    let seeds = escrow_seed_list(&maker.key);
    let (pda, bump) = match find_program_address(&seeds, program_id) {
        Ok(p) => p,
        Err(e) => {
            return Err(e);
        },
    };
    if !keys_equal(&escrow.key, &pda) {
        return Err(EscrowError::AddressMismatch);
    }
    if !keys_equal(&vault.authority, &pda) {
        return Err(EscrowError::Unauthorized);
    }
    if keys_equal(&escrow.owner, program_id) {
        return Err(EscrowError::AlreadyInitialized);
    }
    let (new_maker, mut new_escrow) = match create_account(
        maker,
        escrow,
        rent_min,
        ESCROW_LEN,
        program_id,
    ) {
        Ok(p) => p,
        Err(e) => {
            return Err(e);
        },
    };
    Escrow::initialize(&mut new_escrow.data, maker.key, *mint_a, *mint_b, ix.amount_b, bump);
    let ghost record = EscrowView {
        maker: maker@.key,
        mint_a: mint_a@,
        mint_b: mint_b@,
        amount: ix.amount_b,
        bump: bump,
    };
    proof {
        assert(Seq::new(105 as nat, |i: int| 0u8).skip(105) =~= Seq::<u8>::empty());
        assert(spec_encode_escrow(record) + Seq::<u8>::empty() =~= spec_encode_escrow(record));
        lemma_escrow_codec_roundtrip(record, Seq::<u8>::empty());
        assert(spec_encode_escrow(record) + Seq::<u8>::empty() == spec_encode_escrow(record));
    }
    let (new_ata, new_vault) = match token_transfer(maker_ata, vault, &maker.key, ix.amount_a) {
        Ok(p) => p,
        Err(e) => {
            return Err(e);
        },
    };
    Ok(MakeOutcome { maker: new_maker, maker_ata: new_ata, vault: new_vault, escrow: new_escrow })
}

} // verus!
