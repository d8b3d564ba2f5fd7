pub mod delegate;
pub mod make;
pub mod refund;
pub mod take;
pub mod undelegate;

use vstd::prelude::*;

use crate::errors::EscrowError;
use crate::util::copy_bytes;

verus! {

/// The protocol's instructions, one per discriminant byte, in the
/// canonical order 0 to 4.
#[derive(Clone, Copy, Debug, PartialEq, Eq, Structural)]
pub enum MyProgramInstrution {
    Make,
    Take,
    Refund,
    Delegate,
    UnDelegate,
}

/// The canonical discriminant mapping.
pub open spec fn spec_instruction_of(value: u8) -> Result<MyProgramInstrution, EscrowError> {
    if value == 0 {
        Ok(MyProgramInstrution::Make)
    } else if value == 1 {
        Ok(MyProgramInstrution::Take)
    } else if value == 2 {
        Ok(MyProgramInstrution::Refund)
    } else if value == 3 {
        Ok(MyProgramInstrution::Delegate)
    } else if value == 4 {
        Ok(MyProgramInstrution::UnDelegate)
    } else {
        Err(EscrowError::MalformedPayload)
    }
}

impl MyProgramInstrution {
    /// The instruction a discriminant byte names; any byte past the
    /// canonical range is rejected.
    pub fn try_from(value: u8) -> (r: Result<MyProgramInstrution, EscrowError>)
        ensures
            r == spec_instruction_of(value),
    {
        match value {
            0 => Ok(MyProgramInstrution::Make),
            1 => Ok(MyProgramInstrution::Take),
            2 => Ok(MyProgramInstrution::Refund),
            3 => Ok(MyProgramInstrution::Delegate),
            4 => Ok(MyProgramInstrution::UnDelegate),
            _ => Err(EscrowError::MalformedPayload),
        }
    }
}

/// How many accounts each instruction takes, positionally.
pub open spec fn spec_account_count(ix: MyProgramInstrution) -> usize {
    match ix {
        MyProgramInstrution::Make => 8,
        MyProgramInstrution::Take => 11,
        MyProgramInstrution::Refund => 7,
        MyProgramInstrution::Delegate => 7,
        MyProgramInstrution::UnDelegate => 6,
    }
}

/// The fixed account count of an instruction.
pub fn required_accounts(ix: &MyProgramInstrution) -> (n: usize)
    ensures
        n == spec_account_count(*ix),
{
    match ix {
        MyProgramInstrution::Make => 8,
        MyProgramInstrution::Take => 11,
        MyProgramInstrution::Refund => 7,
        MyProgramInstrution::Delegate => 7,
        MyProgramInstrution::UnDelegate => 6,
    }
}

/// Rejects an account list of the wrong length for an instruction.
pub fn check_account_shape(ix: &MyProgramInstrution, provided: usize) -> (r: Result<
    (),
    EscrowError,
>)
    ensures
        r is Ok <==> provided == spec_account_count(*ix),
        r is Err ==> r == Err::<(), EscrowError>(EscrowError::AccountShapeError),
{
    if provided == required_accounts(ix) {
        Ok(())
    } else {
        Err(EscrowError::AccountShapeError)
    }
}

/// Splitting raw instruction bytes: the first byte names the instruction,
/// the rest is its payload.
pub open spec fn spec_parse_instruction(data: Seq<u8>) -> Result<
    (MyProgramInstrution, Seq<u8>),
    EscrowError,
> {
    if data.len() == 0 {
        Err(EscrowError::MalformedPayload)
    } else {
        match spec_instruction_of(data[0]) {
            Ok(ix) => Ok((ix, data.drop_first())),
            Err(e) => Err(e),
        }
    }
}

/// Splits raw instruction bytes into the named instruction and its payload.
pub fn parse_instruction(data: &Vec<u8>) -> (r: Result<
    (MyProgramInstrution, Vec<u8>),
    EscrowError,
>)
    ensures
        match r {
            Ok(p) => spec_parse_instruction(data@) == Ok::<_, EscrowError>((p.0, p.1@)),
            Err(e) => spec_parse_instruction(data@) == Err::<(MyProgramInstrution, Seq<u8>), _>(e),
        },
{
    if data.len() == 0 {
        return Err(EscrowError::MalformedPayload);
    }
    let ix = match MyProgramInstrution::try_from(data[0]) {
        Ok(ix) => ix,
        Err(e) => {
            return Err(e);
        },
    };
    let rest = copy_bytes(data);
    let mut payload: Vec<u8> = Vec::new();
    let mut i: usize = 1;
    while i < rest.len()
        invariant
            1 <= i <= rest.len(),
            rest@ == data@,
            payload@ == data@.subrange(1, i as int),
        decreases rest.len() - i,
    {
        payload.push(rest[i]);
        proof {
            assert(data@.subrange(1, i as int) + seq![data@[i as int]] =~= data@.subrange(
                1,
                i + 1,
            ));
        }
        i += 1;
    }
    proof {
        assert(data@.subrange(1, data@.len() as int) =~= data@.drop_first());
    }
    Ok((ix, payload))
}

} // verus!
