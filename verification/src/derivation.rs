use vstd::prelude::*;

use crate::errors::EscrowError;
use crate::util::{key_to_vec, push_bytes, push_key};

verus! {

/// What sha2's SHA-256 digest returns for a given byte sequence.
pub uninterp spec fn sha256_of(input: Seq<u8>) -> Seq<u8>;

/// Whether 32 bytes are the compressed encoding of an edwards curve point,
/// as curve25519-dalek decides it. A derived address must not be one.
pub uninterp spec fn on_curve(point: Seq<u8>) -> bool;

/// Relies on sha2::Sha256::digest: the 32-byte digest is a function of the
/// input bytes alone.
#[verifier::external_body]
pub(crate) fn sha256(input: &Vec<u8>) -> (r: [u8; 32])
    ensures
        r@ == sha256_of(input@),
        r@.len() == 32,
{
    let digest = <sha2::Sha256 as sha2::Digest>::digest(input.as_slice());
    digest.into()
}

/// Relies on curve25519_dalek's CompressedEdwardsY::decompress: whether the
/// bytes decode to a curve point is a function of the bytes alone.
#[verifier::external_body]
pub(crate) fn is_on_curve(point: &[u8; 32]) -> (r: bool)
    ensures
        r == on_curve(point@),
{
    curve25519_dalek::edwards::CompressedEdwardsY(*point).decompress().is_some()
}

/// The seed list flattened into one byte string, in order.
pub open spec fn seeds_concat(seeds: Seq<Seq<u8>>) -> Seq<u8>
    decreases seeds.len(),
{
    if seeds.len() == 0 {
        Seq::empty()
    } else {
        seeds.first() + seeds_concat(seeds.drop_first())
    }
}

pub proof fn lemma_seeds_concat_push(seeds: Seq<Seq<u8>>, last: Seq<u8>)
    ensures
        seeds_concat(seeds.push(last)) == seeds_concat(seeds) + last,
    decreases seeds.len(),
{
    if seeds.len() == 0 {
        assert(seeds.push(last).drop_first() =~= Seq::<Seq<u8>>::empty());
        assert(seeds_concat(Seq::<Seq<u8>>::empty()) =~= Seq::<u8>::empty());
        assert(seeds_concat(seeds.push(last)) == last + Seq::<u8>::empty());
        assert(last + Seq::<u8>::empty() =~= Seq::<u8>::empty() + last);
    } else {
        assert(seeds.push(last).drop_first() =~= seeds.drop_first().push(last));
        lemma_seeds_concat_push(seeds.drop_first(), last);
        assert(seeds_concat(seeds.push(last)) == seeds.first() + seeds_concat(
            seeds.drop_first().push(last),
        ));
        assert(seeds.first() + (seeds_concat(seeds.drop_first()) + last) =~= (seeds.first()
            + seeds_concat(seeds.drop_first())) + last);
    }
}

/// The fixed domain-separation suffix of every derived-address preimage
/// (the ASCII bytes of "ProgramDerivedAddress").
pub open spec fn pda_marker() -> Seq<u8> {
    seq![
        0x50u8,
        0x72,
        0x6f,
        0x67,
        0x72,
        0x61,
        0x6d,
        0x44,
        0x65,
        0x72,
        0x69,
        0x76,
        0x65,
        0x64,
        0x41,
        0x64,
        0x64,
        0x72,
        0x65,
        0x73,
        0x73,
    ]
}

/// The bytes hashed to derive an address: seeds, then the salt byte, then
/// the deriving program's id, then the fixed marker.
pub open spec fn pda_preimage(seeds: Seq<Seq<u8>>, bump: u8, program_id: Seq<u8>) -> Seq<u8> {
    seeds_concat(seeds) + seq![bump] + program_id + pda_marker()
}

/// The address derived from a seed list with a given salt byte.
pub open spec fn spec_pda_address(seeds: Seq<Seq<u8>>, bump: u8, program_id: Seq<u8>) -> Seq<u8> {
    sha256_of(pda_preimage(seeds, bump, program_id))
}

/// A salt byte is usable only when the derived bytes are not a curve point,
/// so the derived address can never be a general-purpose signing address.
pub open spec fn bump_usable(seeds: Seq<Seq<u8>>, bump: u8, program_id: Seq<u8>) -> bool {
    !on_curve(spec_pda_address(seeds, bump, program_id))
}

/// The canonical salt search: the highest usable bump in 0..=b.
pub open spec fn search_bump(seeds: Seq<Seq<u8>>, program_id: Seq<u8>, b: int) -> Option<u8>
    decreases b + 1,
{
    if b < 0 {
        None
    } else if bump_usable(seeds, b as u8, program_id) {
        Some(b as u8)
    } else {
        search_bump(seeds, program_id, b - 1)
    }
}

/// Canonical derivation: the address under the highest usable salt byte.
pub open spec fn spec_find_pda(seeds: Seq<Seq<u8>>, program_id: Seq<u8>) -> Option<(Seq<u8>, u8)> {
    match search_bump(seeds, program_id, 255) {
        None => None,
        Some(b) => Some((spec_pda_address(seeds, b, program_id), b)),
    }
}

fn push_marker(dst: &mut Vec<u8>)
    ensures
        final(dst)@ == old(dst)@ + pda_marker(),
{
    let mut m: Vec<u8> = Vec::new();
    m.push(0x50);
    m.push(0x72);
    m.push(0x6f);
    m.push(0x67);
    m.push(0x72);
    m.push(0x61);
    m.push(0x6d);
    m.push(0x44);
    m.push(0x65);
    m.push(0x72);
    m.push(0x69);
    m.push(0x76);
    m.push(0x65);
    m.push(0x64);
    m.push(0x41);
    m.push(0x64);
    m.push(0x64);
    m.push(0x72);
    m.push(0x65);
    m.push(0x73);
    m.push(0x73);
    proof {
        assert(m@ =~= pda_marker());
    }
    push_bytes(dst, &m);
}

/// Recomputes the address a seed list and salt byte stand for; fails with
/// `AddressMismatch` when the salt is unusable for these seeds.
pub fn create_program_address(seeds: &Vec<Vec<u8>>, bump: u8, program_id: &[u8; 32]) -> (r: Result<
    [u8; 32],
    EscrowError,
>)
    ensures
        match r {
            Ok(a) => bump_usable(seeds.deep_view(), bump, program_id@) && a@ == spec_pda_address(
                seeds.deep_view(),
                bump,
                program_id@,
            ),
            Err(e) => !bump_usable(seeds.deep_view(), bump, program_id@) && e
                == EscrowError::AddressMismatch,
        },
{
    let ghost sd = seeds.deep_view();
    let mut preimage: Vec<u8> = Vec::new();
    let mut i: usize = 0;
    while i < seeds.len()
        invariant
            i <= seeds.len(),
            sd == seeds.deep_view(),
            sd.len() == seeds.len(),
            forall|j: int| 0 <= j < sd.len() ==> sd[j] == #[trigger] seeds@[j]@,
            preimage@ == seeds_concat(sd.take(i as int)),
        decreases seeds.len() - i,
    {
        push_bytes(&mut preimage, &seeds[i]);
        proof {
            assert(sd.take(i + 1) =~= sd.take(i as int).push(sd[i as int]));
            lemma_seeds_concat_push(sd.take(i as int), sd[i as int]);
        }
        i += 1;
    }
    proof {
        assert(sd.take(sd.len() as int) =~= sd);
    }
    preimage.push(bump);
    push_key(&mut preimage, program_id);
    push_marker(&mut preimage);
    proof {
        assert(preimage@ =~= pda_preimage(sd, bump, program_id@));
    }
    let addr = sha256(&preimage);
    if is_on_curve(&addr) {
        Err(EscrowError::AddressMismatch)
    } else {
        Ok(addr)
    }
}

/// Finds the canonical salt byte for a seed list: the highest bump whose
/// derived bytes are off the curve, together with the derived address.
pub fn find_program_address(seeds: &Vec<Vec<u8>>, program_id: &[u8; 32]) -> (r: Result<
    ([u8; 32], u8),
    EscrowError,
>)
    ensures
        match r {
            Ok(p) => spec_find_pda(seeds.deep_view(), program_id@) == Some((p.0@, p.1)),
            Err(e) => spec_find_pda(seeds.deep_view(), program_id@) is None && e
                == EscrowError::AddressMismatch,
        },
{
    let ghost sd = seeds.deep_view();
    let mut b: u8 = 255;
    loop
        invariant
            sd == seeds.deep_view(),
            search_bump(sd, program_id@, 255) == search_bump(sd, program_id@, b as int),
        decreases b,
    {
        match create_program_address(seeds, b, program_id) {
            Ok(a) => {
                return Ok((a, b));
            },
            Err(_) => {},
        }
        if b == 0 {
            proof {
                assert(search_bump(sd, program_id@, -1) is None);
                assert(search_bump(sd, program_id@, 0) is None);
            }
            return Err(EscrowError::AddressMismatch);
        }
        b = b - 1;
    }
}

/// The seed list that binds an escrow record account to its maker.
pub open spec fn escrow_seeds(maker: Seq<u8>) -> Seq<Seq<u8>> {
    seq![seq![0x65u8, 0x73, 0x63, 0x72, 0x6f, 0x77], maker]
}

/// The seed list that binds a staging buffer to its subject account.
pub open spec fn buffer_seeds(subject: Seq<u8>) -> Seq<Seq<u8>> {
    seq![seq![0x62u8, 0x75, 0x66, 0x66, 0x65, 0x72], subject]
}

/// The escrow seed list, `["escrow", maker]`, in executable form.
pub fn escrow_seed_list(maker: &[u8; 32]) -> (r: Vec<Vec<u8>>)
    ensures
        r.deep_view() == escrow_seeds(maker@),
{
    let mut tag: Vec<u8> = Vec::new();
    tag.push(0x65);
    tag.push(0x73);
    tag.push(0x63);
    tag.push(0x72);
    tag.push(0x6f);
    tag.push(0x77);
    let mut r: Vec<Vec<u8>> = Vec::new();
    r.push(tag);
    r.push(key_to_vec(maker));
    proof {
        assert(r.deep_view() =~~= escrow_seeds(maker@));
    }
    r
}

/// The buffer seed list, `["buffer", subject]`, in executable form.
pub fn buffer_seed_list(subject: &[u8; 32]) -> (r: Vec<Vec<u8>>)
    ensures
        r.deep_view() == buffer_seeds(subject@),
{
    let mut tag: Vec<u8> = Vec::new();
    tag.push(0x62);
    tag.push(0x75);
    tag.push(0x66);
    tag.push(0x66);
    tag.push(0x65);
    tag.push(0x72);
    let mut r: Vec<Vec<u8>> = Vec::new();
    r.push(tag);
    r.push(key_to_vec(subject));
    proof {
        assert(r.deep_view() =~~= buffer_seeds(subject@));
    }
    r
}


pub proof fn lemma_search_bump_canonical(seeds: Seq<Seq<u8>>, program_id: Seq<u8>, hi: int)
    requires
        -1 <= hi <= 255,
    ensures
        match search_bump(seeds, program_id, hi) {
            None => forall|b: u8| b <= hi ==> !bump_usable(seeds, b, program_id),
            Some(b) => bump_usable(seeds, b, program_id) && b <= hi && (forall|b2: u8|
                b < b2 <= hi ==> !bump_usable(seeds, b2, program_id)),
        },
    decreases hi + 1,
{
    if hi >= 0 && !bump_usable(seeds, hi as u8, program_id) {
        lemma_search_bump_canonical(seeds, program_id, hi - 1);
    }
}

/// Law: the derivation finds the canonical salt: when it yields a pair,
/// the salt is usable, the address is the one it derives, and no higher
/// salt is usable; when it yields nothing, no salt at all is usable.
pub proof fn lemma_find_pda_canonical(seeds: Seq<Seq<u8>>, program_id: Seq<u8>)
    ensures
        match spec_find_pda(seeds, program_id) {
            None => forall|b: u8| !bump_usable(seeds, b, program_id),
            Some((a, b)) => bump_usable(seeds, b, program_id) && a == spec_pda_address(
                seeds,
                b,
                program_id,
            ) && (forall|b2: u8| b2 > b ==> !bump_usable(seeds, b2, program_id)),
        },
{
    lemma_search_bump_canonical(seeds, program_id, 255);
}

} // verus!
