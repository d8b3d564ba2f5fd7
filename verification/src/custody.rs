use vstd::prelude::*;

use crate::accounts::{
    create_account, drain_account, spec_create_account, spec_drain_account, Account, AcctView,
};
use crate::errors::EscrowError;
use crate::util::copy_bytes;

verus! {

/// Evacuation: stage the subject's bytes in the buffer, zero the subject,
/// and hand its address to the foreign owner, in order: provision the
/// buffer under this protocol at the subject's size; copy the subject's
/// whole data region into it; drain the subject's balance to the payer,
/// truncate it and reassign it to the neutral owner; re-provision the
/// subject's address fresh under the foreign owner. The first failing
/// step rejects the whole handoff.
pub open spec fn evacuate_transition(
    payer: AcctView,
    subject: AcctView,
    buffer: AcctView,
    rent_min: u64,
    program_id: Seq<u8>,
    foreign_owner: Seq<u8>,
    system_program: Seq<u8>,
) -> Result<(AcctView, AcctView, AcctView), EscrowError> {
    match spec_create_account(payer, buffer, rent_min, subject.data.len() as usize, program_id) {
        Err(e) => Err(e),
        Ok((payer_a, buffer_sized)) => {
            let buffer_filled = AcctView { data: subject.data, ..buffer_sized };
            match spec_drain_account(subject, payer_a, system_program) {
                Err(e) => Err(e),
                Ok((subject_zeroed, payer_b)) => {
                    match spec_create_account(
                        payer_b,
                        subject_zeroed,
                        rent_min,
                        subject.data.len() as usize,
                        foreign_owner,
                    ) {
                        Err(e) => Err(e),
                        Ok((payer_c, subject_handed)) => Ok(
                            (payer_c, subject_handed, buffer_filled),
                        ),
                    }
                },
            }
        },
    }
}

/// Stages the subject's bytes and hands its address to `foreign_owner`.
/// Returns the payer, subject and buffer as the handoff leaves them; on
/// failure nothing is to be applied.
pub fn evacuate(
    payer: &Account,
    subject: &Account,
    buffer: &Account,
    rent_min: u64,
    program_id: &[u8; 32],
    foreign_owner: &[u8; 32],
    system_program: &[u8; 32],
) -> (r: Result<(Account, Account, Account), EscrowError>)
    ensures
        match r {
            Ok(p) => evacuate_transition(
                payer@,
                subject@,
                buffer@,
                rent_min,
                program_id@,
                foreign_owner@,
                system_program@,
            ) == Ok::<_, EscrowError>((p.0@, p.1@, p.2@)),
            Err(e) => evacuate_transition(
                payer@,
                subject@,
                buffer@,
                rent_min,
                program_id@,
                foreign_owner@,
                system_program@,
            ) == Err::<(AcctView, AcctView, AcctView), _>(e),
        },
{
    let (payer_a, mut buffer_sized) = match create_account(
        payer,
        buffer,
        rent_min,
        subject.data.len(),
        program_id,
    ) {
        Ok(p) => p,
        Err(e) => {
            return Err(e);
        },
    };
    buffer_sized.data = copy_bytes(&subject.data);
    let (subject_zeroed, payer_b) = match drain_account(subject, &payer_a, system_program) {
        Ok(p) => p,
        Err(e) => {
            return Err(e);
        },
    };
    let (payer_c, subject_handed) = match create_account(
        &payer_b,
        &subject_zeroed,
        rent_min,
        subject.data.len(),
        foreign_owner,
    ) {
        Ok(p) => p,
        Err(e) => {
            return Err(e);
        },
    };
    Ok((payer_c, subject_handed, buffer_sized))
}

/// Repossession: take the subject's address back from the foreign owner
/// and restore its bytes, in order: drain and truncate the subject back
/// to the neutral owner; re-provision it under this protocol at the
/// buffer's size; copy the buffer's whole content back into it; drain,
/// truncate and reassign the buffer to the neutral owner. The first
/// failing step rejects the whole handoff.
pub open spec fn repossess_transition(
    payer: AcctView,
    subject: AcctView,
    buffer: AcctView,
    rent_min: u64,
    program_id: Seq<u8>,
    system_program: Seq<u8>,
) -> Result<(AcctView, AcctView, AcctView), EscrowError> {
    match spec_drain_account(subject, payer, system_program) {
        Err(e) => Err(e),
        Ok((subject_zeroed, payer_a)) => {
            match spec_create_account(
                payer_a,
                subject_zeroed,
                rent_min,
                buffer.data.len() as usize,
                program_id,
            ) {
                Err(e) => Err(e),
                Ok((payer_b, subject_sized)) => {
                    let subject_restored = AcctView { data: buffer.data, ..subject_sized };
                    match spec_drain_account(buffer, payer_b, system_program) {
                        Err(e) => Err(e),
                        Ok((buffer_closed, payer_c)) => Ok(
                            (payer_c, subject_restored, buffer_closed),
                        ),
                    }
                },
            }
        },
    }
}

/// Takes the subject back from its foreign owner and restores its bytes
/// from the buffer, draining the buffer away. Returns the payer, subject
/// and buffer as the handoff leaves them; on failure nothing is to be
/// applied.
pub fn repossess(
    payer: &Account,
    subject: &Account,
    buffer: &Account,
    rent_min: u64,
    program_id: &[u8; 32],
    system_program: &[u8; 32],
) -> (r: Result<(Account, Account, Account), EscrowError>)
    ensures
        match r {
            Ok(p) => repossess_transition(
                payer@,
                subject@,
                buffer@,
                rent_min,
                program_id@,
                system_program@,
            ) == Ok::<_, EscrowError>((p.0@, p.1@, p.2@)),
            Err(e) => repossess_transition(
                payer@,
                subject@,
                buffer@,
                rent_min,
                program_id@,
                system_program@,
            ) == Err::<(AcctView, AcctView, AcctView), _>(e),
        },
{
    let (subject_zeroed, payer_a) = match drain_account(subject, payer, system_program) {
        Ok(p) => p,
        Err(e) => {
            return Err(e);
        },
    };
    let (payer_b, mut subject_sized) = match create_account(
        &payer_a,
        &subject_zeroed,
        rent_min,
        buffer.data.len(),
        program_id,
    ) {
        Ok(p) => p,
        Err(e) => {
            return Err(e);
        },
    };
    subject_sized.data = copy_bytes(&buffer.data);
    let (buffer_closed, payer_c) = match drain_account(buffer, &payer_b, system_program) {
        Ok(p) => p,
        Err(e) => {
            return Err(e);
        },
    };
    Ok((payer_c, subject_sized, buffer_closed))
}

} // verus!
