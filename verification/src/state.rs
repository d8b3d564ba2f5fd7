use vstd::prelude::*;

use crate::errors::EscrowError;
use crate::util::{push_bytes, push_key, read_key_at};

verus! {

/// Byte length of a persisted escrow record: three 32-byte ids, an 8-byte
/// little-endian amount, and the salt byte.
pub const ESCROW_LEN: usize = 105;

/// The mathematical shape of a persisted escrow record.
pub struct EscrowView {
    pub maker: Seq<u8>,
    pub mint_a: Seq<u8>,
    pub mint_b: Seq<u8>,
    pub amount: u64,
    pub bump: u8,
}

/// One open escrow: who opened it, the two asset ids, the quantity of
/// `mint_b` the maker demands, and the salt byte of the record's address.
#[derive(Clone, Copy, Debug, PartialEq, Eq)]
pub struct Escrow {
    pub maker: [u8; 32],
    pub mint_a: [u8; 32],
    pub mint_b: [u8; 32],
    pub amount: u64,
    pub bump: u8,
}

impl View for Escrow {
    type V = EscrowView;

    open spec fn view(&self) -> EscrowView {
        EscrowView {
            maker: self.maker@,
            mint_a: self.mint_a@,
            mint_b: self.mint_b@,
            amount: self.amount,
            bump: self.bump,
        }
    }
}

/// An escrow record view whose ids have the length of real ids.
pub open spec fn escrow_view_wf(e: EscrowView) -> bool {
    e.maker.len() == 32 && e.mint_a.len() == 32 && e.mint_b.len() == 32
}

/// The fixed 105-byte layout: maker, mint_a, mint_b, amount (little-endian),
/// bump, at fixed offsets in that order.
pub open spec fn spec_encode_escrow(e: EscrowView) -> Seq<u8> {
    e.maker + e.mint_a + e.mint_b + vstd::bytes::spec_u64_to_le_bytes(e.amount) + seq![e.bump]
}

/// Decoding of a record buffer: fails only on a buffer shorter than the
/// fixed layout; otherwise a structural view of the first 105 bytes.
pub open spec fn spec_read_escrow(data: Seq<u8>) -> Result<EscrowView, EscrowError> {
    if data.len() < 105 {
        Err(EscrowError::DeserializationFailed)
    } else {
        Ok(
            EscrowView {
                maker: data.subrange(0, 32),
                mint_a: data.subrange(32, 64),
                mint_b: data.subrange(64, 96),
                amount: vstd::bytes::spec_u64_from_le_bytes(data.subrange(96, 104)),
                bump: data[104],
            },
        )
    }
}

/// Law: reading a buffer that starts with an encoded record yields exactly
/// that record, whatever follows the fixed layout.
pub proof fn lemma_escrow_codec_roundtrip(e: EscrowView, rest: Seq<u8>)
    requires
        escrow_view_wf(e),
    ensures
        spec_read_escrow(spec_encode_escrow(e) + rest) == Ok::<EscrowView, EscrowError>(e),
{
    vstd::bytes::lemma_auto_spec_u64_to_from_le_bytes();
    let d = spec_encode_escrow(e) + rest;
    assert(d.subrange(0, 32) =~= e.maker);
    assert(d.subrange(32, 64) =~= e.mint_a);
    assert(d.subrange(64, 96) =~= e.mint_b);
    assert(d.subrange(96, 104) =~= vstd::bytes::spec_u64_to_le_bytes(e.amount));
    assert(d[104] == e.bump);
}

/// The record in its persisted form, 105 bytes.
pub fn encode_escrow(e: &Escrow) -> (r: Vec<u8>)
    ensures
        r@ == spec_encode_escrow(e@),
        r@.len() == 105,
{
    proof {
        vstd::bytes::lemma_auto_spec_u64_to_from_le_bytes();
    }
    let mut v: Vec<u8> = Vec::new();
    push_key(&mut v, &e.maker);
    push_key(&mut v, &e.mint_a);
    push_key(&mut v, &e.mint_b);
    let amt = vstd::bytes::u64_to_le_bytes(e.amount);
    push_bytes(&mut v, &amt);
    v.push(e.bump);
    proof {
        assert(v@ =~= spec_encode_escrow(e@));
    }
    v
}

impl Escrow {
    /// Structural read of a record buffer; `DeserializationFailed` if and
    /// only if the buffer is shorter than the fixed layout.
    pub fn read(data: &Vec<u8>) -> (r: Result<Escrow, EscrowError>)
        ensures
            match r {
                Ok(e) => spec_read_escrow(data@) == Ok::<EscrowView, EscrowError>(e@),
                Err(er) => spec_read_escrow(data@) == Err::<EscrowView, EscrowError>(er),
            },
    {
        if data.len() < 105 {
            return Err(EscrowError::DeserializationFailed);
        }
        let maker = read_key_at(data, 0);
        let mint_a = read_key_at(data, 32);
        let mint_b = read_key_at(data, 64);
        let amount_bytes = vstd::slice::slice_subrange(data.as_slice(), 96, 104);
        let amount = vstd::bytes::u64_from_le_bytes(amount_bytes);
        let bump = data[104];
        Ok(Escrow { maker, mint_a, mint_b, amount, bump })
    }

    /// Writes all fields into a pre-sized buffer; the caller must have
    /// provisioned at least the fixed layout's length. Bytes past the
    /// layout are preserved.
    pub fn initialize(
        data: &mut Vec<u8>,
        maker: [u8; 32],
        mint_a: [u8; 32],
        mint_b: [u8; 32],
        amount: u64,
        bump: u8,
    )
        requires
            old(data).len() >= 105,
        ensures
            final(data)@ == spec_encode_escrow(
                EscrowView {
                    maker: maker@,
                    mint_a: mint_a@,
                    mint_b: mint_b@,
                    amount: amount,
                    bump: bump,
                },
            ) + old(data)@.skip(105),
    {
        let record = Escrow { maker, mint_a, mint_b, amount, bump };
        let mut out = encode_escrow(&record);
        let mut i: usize = 105;
        while i < data.len()
            invariant
                105 <= i <= data.len(),
                out@ == spec_encode_escrow(record@) + data@.subrange(105, i as int),
            decreases data.len() - i,
        {
            out.push(data[i]);
            proof {
                assert(spec_encode_escrow(record@) + data@.subrange(105, i as int) + seq![
                    data@[i as int],
                ] =~= spec_encode_escrow(record@) + data@.subrange(105, i + 1));
            }
            i += 1;
        }
        proof {
            assert(spec_encode_escrow(record@) + data@.subrange(105, data@.len() as int)
                =~= spec_encode_escrow(record@) + data@.skip(105));
        }
        *data = out;
    }
}

} // verus!
