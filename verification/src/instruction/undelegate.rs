use vstd::prelude::*;

use crate::accounts::{Account, AcctView};
use crate::custody::{repossess, repossess_transition};
use crate::derivation::{
    buffer_seed_list, buffer_seeds, escrow_seed_list, escrow_seeds, find_program_address,
    spec_find_pda,
};
use crate::errors::EscrowError;
use crate::util::keys_equal;

verus! {

/// The accounts as Undelegate leaves them.
pub struct UndelegateOutcomeView {
    pub maker: AcctView,
    pub subject: AcctView,
    pub buffer: AcctView,
}

/// The accounts as Undelegate leaves them: the subject repossessed under
/// this protocol with its bytes restored, the buffer drained away.
pub struct UndelegateOutcome {
    pub maker: Account,
    pub subject: Account,
    pub buffer: Account,
}

impl View for UndelegateOutcome {
    type V = UndelegateOutcomeView;

    open spec fn view(&self) -> UndelegateOutcomeView {
        UndelegateOutcomeView { maker: self.maker@, subject: self.subject@, buffer: self.buffer@ }
    }
}

/// Repossessing custody, in order: the subject account must sit at the
/// address derived from `["escrow", maker]` and the buffer at the one
/// derived from `["buffer", subject]`; the subject must be in the
/// delegation authority's custody and the buffer owned by this protocol;
/// then the repossession drains the subject back, re-provisions it under
/// this protocol at the buffer's size, restores its bytes from the
/// buffer, and drains the buffer away. The first failing step rejects
/// the whole invocation.
pub open spec fn undelegate_transition(
    maker: AcctView,
    subject: AcctView,
    buffer: AcctView,
    program_id: Seq<u8>,
    delegation_program: Seq<u8>,
    system_program: Seq<u8>,
    rent_min: u64,
) -> Result<UndelegateOutcomeView, EscrowError> {
    match spec_find_pda(escrow_seeds(maker.key), program_id) {
        None => Err(EscrowError::AddressMismatch),
        Some((escrow_pda, escrow_bump)) => {
            if subject.key != escrow_pda {
                Err(EscrowError::AddressMismatch)
            } else {
                match spec_find_pda(buffer_seeds(subject.key), program_id) {
                    None => Err(EscrowError::AddressMismatch),
                    Some((buffer_pda, buffer_bump)) => {
                        if buffer.key != buffer_pda {
                            Err(EscrowError::AddressMismatch)
                        } else if subject.owner != delegation_program {
                            Err(EscrowError::Unauthorized)
                        } else if buffer.owner != program_id {
                            Err(EscrowError::Unauthorized)
                        } else {
                            match repossess_transition(
                                maker,
                                subject,
                                buffer,
                                rent_min,
                                program_id,
                                system_program,
                            ) {
                                Err(e) => Err(e),
                                Ok((maker_after, subject_after, buffer_after)) => Ok(
                                    UndelegateOutcomeView {
                                        maker: maker_after,
                                        subject: subject_after,
                                        buffer: buffer_after,
                                    },
                                ),
                            }
                        }
                    },
                }
            }
        },
    }
}

/// Takes the record account back from the delegation authority, restoring
/// its bytes from the staging buffer. On success the returned accounts
/// replace the supplied ones; on failure nothing is to be applied.
pub fn process_undelegate(
    maker: &Account,
    subject: &Account,
    buffer: &Account,
    program_id: &[u8; 32],
    delegation_program: &[u8; 32],
    system_program: &[u8; 32],
    rent_min: u64,
) -> (r: Result<UndelegateOutcome, EscrowError>)
    ensures
        match r {
            Ok(p) => undelegate_transition(
                maker@,
                subject@,
                buffer@,
                program_id@,
                delegation_program@,
                system_program@,
                rent_min,
            ) == Ok::<_, EscrowError>(p@),
            Err(e) => undelegate_transition(
                maker@,
                subject@,
                buffer@,
                program_id@,
                delegation_program@,
                system_program@,
                rent_min,
            ) == Err::<UndelegateOutcomeView, _>(e),
        },
        r matches Ok(p) ==> {
            &&& p.subject@.data == buffer@.data
            &&& p.subject@.owner == program_id@
            &&& p.subject@.key == subject@.key
            &&& p.buffer@.data.len() == 0 && p.buffer@.lamports == 0
            &&& p.buffer@.owner == system_program@
        },
{
    let escrow_seed_vec = escrow_seed_list(&maker.key);
    let escrow_pda = match find_program_address(&escrow_seed_vec, program_id) {
        Ok(p) => p.0,
        Err(e) => {
            return Err(e);
        },
    };
    if !keys_equal(&subject.key, &escrow_pda) {
        return Err(EscrowError::AddressMismatch);
    }
    let buffer_seed_vec = buffer_seed_list(&subject.key);
    let buffer_pda = match find_program_address(&buffer_seed_vec, program_id) {
        Ok(p) => p.0,
        Err(e) => {
            return Err(e);
        },
    };
    if !keys_equal(&buffer.key, &buffer_pda) {
        return Err(EscrowError::AddressMismatch);
    }
    if !keys_equal(&subject.owner, delegation_program) {
        return Err(EscrowError::Unauthorized);
    }
    if !keys_equal(&buffer.owner, program_id) {
        return Err(EscrowError::Unauthorized);
    }
    let (maker_after, subject_after, buffer_after) = match repossess(
        maker,
        subject,
        buffer,
        rent_min,
        program_id,
        system_program,
    ) {
        Ok(p) => p,
        Err(e) => {
            return Err(e);
        },
    };
    Ok(UndelegateOutcome { maker: maker_after, subject: subject_after, buffer: buffer_after })
}

} // verus!
