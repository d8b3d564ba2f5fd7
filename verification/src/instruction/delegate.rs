use vstd::prelude::*;

use crate::accounts::{Account, AcctView};
use crate::custody::{evacuate, evacuate_transition};
use crate::derivation::{
    buffer_seed_list, buffer_seeds, escrow_seed_list, escrow_seeds, find_program_address,
    spec_find_pda,
};
use crate::errors::EscrowError;
use crate::util::{keys_equal, push_bytes, push_key, read_bytes, read_key_at};

verus! {

/// The mathematical shape of a delegation configuration.
pub struct DelegateArgsView {
    pub commit_frequency_ms: u32,
    pub seeds: Seq<Seq<u8>>,
    pub validator: Option<Seq<u8>>,
}

/// The configuration handed to the external delegation authority: how
/// often it should commit, the seed path of the delegated address, and an
/// optional validator pin.
#[derive(Clone, Debug, PartialEq, Eq)]
pub struct DelegateAccountArgs {
    pub commit_frequency_ms: u32,
    pub seeds: Vec<Vec<u8>>,
    pub validator: Option<[u8; 32]>,
}

impl View for DelegateAccountArgs {
    type V = DelegateArgsView;

    open spec fn view(&self) -> DelegateArgsView {
        DelegateArgsView {
            commit_frequency_ms: self.commit_frequency_ms,
            seeds: self.seeds.deep_view(),
            validator: match self.validator {
                Option::None => Option::None,
                Option::Some(k) => Option::Some(k@),
            },
        }
    }
}

impl Default for DelegateAccountArgs {
    /// The default configuration: commit as rarely as possible, no seed
    /// path, no validator pin.
    fn default() -> (r: DelegateAccountArgs)
        ensures
            r@.commit_frequency_ms == u32::MAX,
            r@.seeds == Seq::<Seq<u8>>::empty(),
            r@.validator is None,
    {
        let r = DelegateAccountArgs { commit_frequency_ms: u32::MAX, seeds: Vec::new(), validator: Option::None };
        proof {
            assert(r@.seeds =~~= Seq::<Seq<u8>>::empty());
        }
        r
    }
}

/// The wire form of a seed list: a 4-byte little-endian count, then each
/// seed as a 4-byte little-endian length followed by its bytes.
pub open spec fn spec_encode_seed_items(seeds: Seq<Seq<u8>>) -> Seq<u8>
    decreases seeds.len(),
{
    if seeds.len() == 0 {
        Seq::empty()
    } else {
        vstd::bytes::spec_u32_to_le_bytes(seeds.first().len() as u32) + seeds.first()
            + spec_encode_seed_items(seeds.drop_first())
    }
}

pub proof fn lemma_encode_seed_items_push(seeds: Seq<Seq<u8>>, last: Seq<u8>)
    ensures
        spec_encode_seed_items(seeds.push(last)) == spec_encode_seed_items(seeds)
            + vstd::bytes::spec_u32_to_le_bytes(last.len() as u32) + last,
    decreases seeds.len(),
{
    let enc = vstd::bytes::spec_u32_to_le_bytes(last.len() as u32) + last;
    if seeds.len() == 0 {
        assert(seeds.push(last).drop_first() =~= Seq::<Seq<u8>>::empty());
        assert(spec_encode_seed_items(Seq::<Seq<u8>>::empty()) =~= Seq::<u8>::empty());
        assert(spec_encode_seed_items(seeds.push(last)) =~= Seq::<u8>::empty() + enc);
    } else {
        assert(seeds.push(last).drop_first() =~= seeds.drop_first().push(last));
        lemma_encode_seed_items_push(seeds.drop_first(), last);
        assert(spec_encode_seed_items(seeds.push(last)) == vstd::bytes::spec_u32_to_le_bytes(
            seeds.first().len() as u32,
        ) + seeds.first() + spec_encode_seed_items(seeds.drop_first().push(last)));
        assert(vstd::bytes::spec_u32_to_le_bytes(seeds.first().len() as u32) + seeds.first() + (
        spec_encode_seed_items(seeds.drop_first()) + enc) =~= (vstd::bytes::spec_u32_to_le_bytes(
            seeds.first().len() as u32,
        ) + seeds.first() + spec_encode_seed_items(seeds.drop_first())) + enc);
    }
}

/// A configuration whose counts fit the 4-byte wire fields.
pub open spec fn spec_args_encodable(a: DelegateArgsView) -> bool {
    a.seeds.len() <= u32::MAX && (forall|i: int|
        0 <= i < a.seeds.len() ==> (#[trigger] a.seeds[i]).len() <= u32::MAX)
}

/// The wire form of a configuration: commit frequency, seed list,
/// then the optional validator as a tag byte and, when present, its id.
pub open spec fn spec_encode_args(a: DelegateArgsView) -> Seq<u8> {
    vstd::bytes::spec_u32_to_le_bytes(a.commit_frequency_ms) + vstd::bytes::spec_u32_to_le_bytes(
        a.seeds.len() as u32,
    ) + spec_encode_seed_items(a.seeds) + (match a.validator {
        Option::None => seq![0u8],
        Option::Some(v) => seq![1u8] + v,
    })
}

/// Encodes a configuration for the wire; a count that cannot fit a 4-byte
/// field is rejected as `MalformedPayload`.
pub fn encode_delegate_args(a: &DelegateAccountArgs) -> (r: Result<Vec<u8>, EscrowError>)
    ensures
        match r {
            Ok(v) => spec_args_encodable(a@) && v@ == spec_encode_args(a@),
            Err(e) => !spec_args_encodable(a@) && e == EscrowError::MalformedPayload,
        },
{
    let ghost sd = a@.seeds;
    if a.seeds.len() > u32::MAX as usize {
        return Err(EscrowError::MalformedPayload);
    }
    let mut k: usize = 0;
    while k < a.seeds.len()
        invariant
            k <= a.seeds.len(),
            sd == a@.seeds,
            sd.len() == a.seeds.len(),
            forall|j: int| 0 <= j < sd.len() ==> sd[j] == #[trigger] a.seeds@[j]@,
            forall|j: int| 0 <= j < k ==> (#[trigger] sd[j]).len() <= u32::MAX,
        decreases a.seeds.len() - k,
    {
        if a.seeds[k].len() > u32::MAX as usize {
            return Err(EscrowError::MalformedPayload);
        }
        k += 1;
    }
    let mut out = vstd::bytes::u32_to_le_bytes(a.commit_frequency_ms);
    let count_bytes = vstd::bytes::u32_to_le_bytes(a.seeds.len() as u32);
    push_bytes(&mut out, &count_bytes);
    let ghost header = vstd::bytes::spec_u32_to_le_bytes(a@.commit_frequency_ms)
        + vstd::bytes::spec_u32_to_le_bytes(sd.len() as u32);
    let mut i: usize = 0;
    while i < a.seeds.len()
        invariant
            i <= a.seeds.len(),
            sd == a@.seeds,
            sd.len() == a.seeds.len(),
            forall|j: int| 0 <= j < sd.len() ==> sd[j] == #[trigger] a.seeds@[j]@,
            forall|j: int| 0 <= j < sd.len() ==> (#[trigger] sd[j]).len() <= u32::MAX,
            out@ == header + spec_encode_seed_items(sd.take(i as int)),
        decreases a.seeds.len() - i,
    {
        let len_bytes = vstd::bytes::u32_to_le_bytes(a.seeds[i].len() as u32);
        push_bytes(&mut out, &len_bytes);
        push_bytes(&mut out, &a.seeds[i]);
        proof {
            assert(sd.take(i + 1) =~= sd.take(i as int).push(sd[i as int]));
            lemma_encode_seed_items_push(sd.take(i as int), sd[i as int]);
            assert(header + spec_encode_seed_items(sd.take(i as int))
                + vstd::bytes::spec_u32_to_le_bytes(sd[i as int].len() as u32) + sd[i as int]
                =~= header + (spec_encode_seed_items(sd.take(i as int))
                + vstd::bytes::spec_u32_to_le_bytes(sd[i as int].len() as u32) + sd[i as int]));
        }
        i += 1;
    }
    proof {
        assert(sd.take(sd.len() as int) =~= sd);
    }
    match &a.validator {
        Option::None => {
            out.push(0);
            proof {
                assert(out@ =~= spec_encode_args(a@));
            }
        },
        Option::Some(v) => {
            out.push(1);
            push_key(&mut out, v);
            proof {
                assert(out@ =~= spec_encode_args(a@));
            }
        },
    }
    Ok(out)
}

/// Parsing `n` wire seeds starting at `i`: each is a 4-byte little-endian
/// length and its bytes; yields the seeds and the position after them.
pub open spec fn sp_parse_seed_items(d: Seq<u8>, i: int, n: nat) -> Option<(Seq<Seq<u8>>, int)>
    decreases n,
{
    if n == 0 {
        Some((Seq::empty(), i))
    } else if i + 4 <= d.len() && i + 4 + vstd::bytes::spec_u32_from_le_bytes(
        d.subrange(i, i + 4),
    ) as int <= d.len() {
        let len = vstd::bytes::spec_u32_from_le_bytes(d.subrange(i, i + 4)) as int;
        match sp_parse_seed_items(d, i + 4 + len, (n - 1) as nat) {
            None => None,
            Some((rest, j)) => Some((seq![d.subrange(i + 4, i + 4 + len)] + rest, j)),
        }
    } else {
        None
    }
}

/// Parsing the optional validator at `i`: a zero tag ending the payload,
/// or a one tag followed by exactly 32 bytes ending the payload.
pub open spec fn sp_parse_validator(d: Seq<u8>, i: int) -> Option<Option<Seq<u8>>> {
    if i + 1 == d.len() && d[i] == 0 {
        Some(Option::None)
    } else if i + 33 == d.len() && d[i] == 1 {
        Some(Option::Some(d.subrange(i + 1, i + 33)))
    } else {
        None
    }
}

/// The Delegate payload layout: a 4-byte commit frequency, a seed list,
/// and the optional validator, consuming the payload exactly.
pub open spec fn spec_parse_delegate_args(d: Seq<u8>) -> Result<DelegateArgsView, EscrowError> {
    if d.len() < 8 {
        Err(EscrowError::MalformedPayload)
    } else {
        match sp_parse_seed_items(
            d,
            8,
            vstd::bytes::spec_u32_from_le_bytes(d.subrange(4, 8)) as nat,
        ) {
            None => Err(EscrowError::MalformedPayload),
            Some((seeds, j)) => match sp_parse_validator(d, j) {
                None => Err(EscrowError::MalformedPayload),
                Some(v) => Ok(
                    DelegateArgsView {
                        commit_frequency_ms: vstd::bytes::spec_u32_from_le_bytes(d.subrange(0, 4)),
                        seeds: seeds,
                        validator: v,
                    },
                ),
            },
        }
    }
}

/// Decodes a Delegate payload; `MalformedPayload` if and only if the
/// bytes do not hold exactly one configuration.
#[verifier::loop_isolation(false)]
pub fn parse_delegate_args(data: &Vec<u8>) -> (r: Result<DelegateAccountArgs, EscrowError>)
    ensures
        match r {
            Ok(a) => spec_parse_delegate_args(data@) == Ok::<_, EscrowError>(a@),
            Err(e) => spec_parse_delegate_args(data@) == Err::<DelegateArgsView, _>(e),
        },
{
    let d = data;
    if d.len() < 8 {
        return Err(EscrowError::MalformedPayload);
    }
    let freq = vstd::bytes::u32_from_le_bytes(vstd::slice::slice_subrange(d.as_slice(), 0, 4));
    let count = vstd::bytes::u32_from_le_bytes(vstd::slice::slice_subrange(d.as_slice(), 4, 8));
    let ghost total = count as nat;
    let mut seeds: Vec<Vec<u8>> = Vec::new();
    let mut pos: usize = 8;
    let mut k: u32 = 0;
    proof {
        assert(seeds.deep_view() =~~= Seq::<Seq<u8>>::empty());
    }
    while k < count
        invariant
            k <= count,
            8 <= pos <= d.len(),
            total == count as nat,
            match sp_parse_seed_items(d@, pos as int, (count - k) as nat) {
                None => sp_parse_seed_items(d@, 8, total) is None,
                Some((rest, j)) => sp_parse_seed_items(d@, 8, total) == Some(
                    (seeds.deep_view() + rest, j),
                ),
            },
        decreases count - k,
    {
        if d.len() < 4 || pos > d.len() - 4 {
            proof {
                assert(sp_parse_seed_items(d@, pos as int, (count - k) as nat) is None);
                assert(sp_parse_seed_items(d@, 8, total) is None);
            }
            return Err(EscrowError::MalformedPayload);
        }
        let len32 = vstd::bytes::u32_from_le_bytes(
            vstd::slice::slice_subrange(d.as_slice(), pos, pos + 4),
        );
        let len = len32 as usize;
        if len > d.len() - (pos + 4) {
            proof {
                assert(len as int == vstd::bytes::spec_u32_from_le_bytes(
                    d@.subrange(pos as int, pos + 4),
                ) as int);
                assert(sp_parse_seed_items(d@, pos as int, (count - k) as nat) is None);
                assert(sp_parse_seed_items(d@, 8, total) is None);
            }
            return Err(EscrowError::MalformedPayload);
        }
        let seed = read_bytes(d, pos + 4, len);
        let ghost old_seeds = seeds.deep_view();
        seeds.push(seed);
        proof {
            assert(seeds.deep_view() =~~= old_seeds.push(seed@));
            let i = pos as int;
            let rest_n = (count - k) as nat;
            assert(sp_parse_seed_items(d@, i, rest_n) matches Some(p) ==> p.0 == seq![
                d@.subrange(i + 4, i + 4 + len as int),
            ] + sp_parse_seed_items(d@, i + 4 + len as int, (rest_n - 1) as nat)->Some_0.0);
            assert(forall|restv: Seq<Seq<u8>>|
                old_seeds + (seq![seed@] + restv) =~~= (old_seeds.push(seed@)) + restv);
        }
        pos = pos + 4 + len;
        k = k + 1;
    }
    proof {
        assert(sp_parse_seed_items(d@, pos as int, 0) == Some((Seq::<Seq<u8>>::empty(), pos as int)));
        assert(seeds.deep_view() + Seq::<Seq<u8>>::empty() =~~= seeds.deep_view());
    }
    let validator: Option<[u8; 32]>;
    if pos < d.len() && d[pos] == 0 && d.len() - pos == 1 {
        validator = Option::None;
    } else if pos < d.len() && d[pos] == 1 && d.len() - pos == 33 {
        validator = Option::Some(read_key_at(d, pos + 1));
    } else {
        return Err(EscrowError::MalformedPayload);
    }
    Ok(DelegateAccountArgs { commit_frequency_ms: freq, seeds, validator })
}


proof fn lemma_parse_encoded_seed_items(d: Seq<u8>, i: int, ss: Seq<Seq<u8>>)
    requires
        0 <= i,
        i + spec_encode_seed_items(ss).len() <= d.len(),
        d.subrange(i, i + spec_encode_seed_items(ss).len() as int) == spec_encode_seed_items(ss),
        forall|k: int| 0 <= k < ss.len() ==> (#[trigger] ss[k]).len() <= u32::MAX,
    ensures
        sp_parse_seed_items(d, i, ss.len() as nat) == Some(
            (ss, i + spec_encode_seed_items(ss).len()),
        ),
    decreases ss.len(),
{
    vstd::bytes::lemma_auto_spec_u32_to_from_le_bytes();
    if ss.len() == 0 {
        assert(Seq::<Seq<u8>>::empty() =~~= ss);
    } else {
        let first = ss.first();
        let rest = ss.drop_first();
        let lenbytes = vstd::bytes::spec_u32_to_le_bytes(first.len() as u32);
        let enc = spec_encode_seed_items(ss);
        let enc_rest = spec_encode_seed_items(rest);
        assert(enc == lenbytes + first + enc_rest);
        let whole = d.subrange(i, i + enc.len() as int);
        assert(d.subrange(i, i + 4) =~= whole.subrange(0, 4));
        assert(whole.subrange(0, 4) =~= lenbytes);
        assert(vstd::bytes::spec_u32_from_le_bytes(d.subrange(i, i + 4)) == first.len() as u32);
        let len = first.len() as int;
        assert(d.subrange(i + 4, i + 4 + len) =~= whole.subrange(4, 4 + len));
        assert(whole.subrange(4, 4 + len) =~= first);
        let j = i + 4 + len;
        assert(d.subrange(j, j + enc_rest.len() as int) =~= whole.subrange(
            4 + len,
            4 + len + enc_rest.len() as int,
        ));
        assert(whole.subrange(4 + len, 4 + len + enc_rest.len() as int) =~= enc_rest);
        lemma_parse_encoded_seed_items(d, j, rest);
        assert(seq![d.subrange(i + 4, i + 4 + len)] + rest =~~= ss);
    }
}

/// Law: the wire codec round-trips: parsing an encoded configuration
/// yields exactly that configuration, for every configuration whose
/// counts fit the wire and whose validator id, when present, has the
/// length of a real id.
pub proof fn lemma_delegate_args_codec_roundtrip(a: DelegateArgsView)
    requires
        spec_args_encodable(a),
        a.validator matches Some(v) ==> v.len() == 32,
    ensures
        spec_parse_delegate_args(spec_encode_args(a)) == Ok::<DelegateArgsView, EscrowError>(a),
{
    vstd::bytes::lemma_auto_spec_u32_to_from_le_bytes();
    let d = spec_encode_args(a);
    let freqbytes = vstd::bytes::spec_u32_to_le_bytes(a.commit_frequency_ms);
    let countbytes = vstd::bytes::spec_u32_to_le_bytes(a.seeds.len() as u32);
    let enc = spec_encode_seed_items(a.seeds);
    let tail: Seq<u8> = match a.validator {
        Option::None => seq![0u8],
        Option::Some(v) => seq![1u8] + v,
    };
    assert(d == freqbytes + countbytes + enc + tail);
    assert(d.subrange(0, 4) =~= freqbytes);
    assert(d.subrange(4, 8) =~= countbytes);
    assert(vstd::bytes::spec_u32_from_le_bytes(d.subrange(4, 8)) == a.seeds.len() as u32);
    assert(d.subrange(8, 8 + enc.len() as int) =~= enc);
    lemma_parse_encoded_seed_items(d, 8, a.seeds);
    let j = 8 + enc.len() as int;
    match a.validator {
        Option::None => {
            assert(j + 1 == d.len());
            assert(d[j] == 0);
        },
        Option::Some(v) => {
            assert(j + 33 == d.len());
            assert(d[j] == 1);
            assert(d.subrange(j + 1, j + 33) =~= v);
        },
    }
}

/// The accounts as Delegate leaves them, with the configuration payload
/// for the external delegation authority.
pub struct DelegateOutcomeView {
    pub maker: AcctView,
    pub subject: AcctView,
    pub buffer: AcctView,
    pub authority_payload: Seq<u8>,
}

/// The accounts as Delegate leaves them: the subject's bytes staged in
/// the buffer, the subject's address handed to the delegation authority,
/// and the payload to send to that authority.
pub struct DelegateOutcome {
    pub maker: Account,
    pub subject: Account,
    pub buffer: Account,
    pub authority_payload: Vec<u8>,
}

impl View for DelegateOutcome {
    type V = DelegateOutcomeView;

    open spec fn view(&self) -> DelegateOutcomeView {
        DelegateOutcomeView {
            maker: self.maker@,
            subject: self.subject@,
            buffer: self.buffer@,
            authority_payload: self.authority_payload@,
        }
    }
}

/// The instruction prefix that precedes the configuration on the wire.
pub open spec fn spec_payload_prefix() -> Seq<u8> {
    seq![0u8, 0u8, 0u8, 0u8, 0u8, 0u8, 0u8, 0u8]
}

/// Relocating custody, in order: the subject account must sit at the
/// address derived from `["escrow", maker]` and the buffer at the one
/// derived from `["buffer", subject]`; the subject must be owned by this
/// protocol; the configuration must fit the wire; then the evacuation
/// stages the subject's bytes and hands its address to the delegation
/// authority. The first failing step rejects the whole invocation.
pub open spec fn delegate_transition(
    maker: AcctView,
    subject: AcctView,
    buffer: AcctView,
    program_id: Seq<u8>,
    delegation_program: Seq<u8>,
    system_program: Seq<u8>,
    rent_min: u64,
    args: DelegateArgsView,
) -> Result<DelegateOutcomeView, EscrowError> {
    match spec_find_pda(escrow_seeds(maker.key), program_id) {
        None => Err(EscrowError::AddressMismatch),
        Some((escrow_pda, escrow_bump)) => {
            if subject.key != escrow_pda {
                Err(EscrowError::AddressMismatch)
            } else {
                match spec_find_pda(buffer_seeds(subject.key), program_id) {
                    None => Err(EscrowError::AddressMismatch),
                    Some((buffer_pda, buffer_bump)) => {
                        if buffer.key != buffer_pda {
                            Err(EscrowError::AddressMismatch)
                        } else if subject.owner != program_id {
                            Err(EscrowError::Unauthorized)
                        } else if !spec_args_encodable(args) {
                            Err(EscrowError::MalformedPayload)
                        } else {
                            match evacuate_transition(
                                maker,
                                subject,
                                buffer,
                                rent_min,
                                program_id,
                                delegation_program,
                                system_program,
                            ) {
                                Err(e) => Err(e),
                                Ok((maker_after, subject_after, buffer_after)) => Ok(
                                    DelegateOutcomeView {
                                        maker: maker_after,
                                        subject: subject_after,
                                        buffer: buffer_after,
                                        authority_payload: spec_payload_prefix()
                                            + spec_encode_args(args),
                                    },
                                ),
                            }
                        }
                    },
                }
            }
        },
    }
}

/// Relocates the record account's custody to the delegation authority.
/// On success the returned accounts replace the supplied ones and the
/// payload is to be sent to the authority; on failure nothing is to be
/// applied.
pub fn process_delegate(
    maker: &Account,
    subject: &Account,
    buffer: &Account,
    program_id: &[u8; 32],
    delegation_program: &[u8; 32],
    system_program: &[u8; 32],
    rent_min: u64,
    args: &DelegateAccountArgs,
) -> (r: Result<DelegateOutcome, EscrowError>)
    ensures
        match r {
            Ok(p) => delegate_transition(
                maker@,
                subject@,
                buffer@,
                program_id@,
                delegation_program@,
                system_program@,
                rent_min,
                args@,
            ) == Ok::<_, EscrowError>(p@),
            Err(e) => delegate_transition(
                maker@,
                subject@,
                buffer@,
                program_id@,
                delegation_program@,
                system_program@,
                rent_min,
                args@,
            ) == Err::<DelegateOutcomeView, _>(e),
        },
        r matches Ok(p) ==> {
            &&& p.buffer@.data == subject@.data
            &&& p.buffer@.owner == program_id@
            &&& p.subject@.owner == delegation_program@
            &&& p.subject@.key == subject@.key
        },
{
    let escrow_seed_vec = escrow_seed_list(&maker.key);
    let escrow_pda = match find_program_address(&escrow_seed_vec, program_id) {
        Ok(p) => p.0,
        Err(e) => {
            return Err(e);
        },
    };
    if !keys_equal(&subject.key, &escrow_pda) {
        return Err(EscrowError::AddressMismatch);
    }
    let buffer_seed_vec = buffer_seed_list(&subject.key);
    let buffer_pda = match find_program_address(&buffer_seed_vec, program_id) {
        Ok(p) => p.0,
        Err(e) => {
            return Err(e);
        },
    };
    if !keys_equal(&buffer.key, &buffer_pda) {
        return Err(EscrowError::AddressMismatch);
    }
    if !keys_equal(&subject.owner, program_id) {
        return Err(EscrowError::Unauthorized);
    }
    let encoded_args = match encode_delegate_args(args) {
        Ok(v) => v,
        Err(e) => {
            return Err(e);
        },
    };
    let (maker_after, subject_after, buffer_after) = match evacuate(
        maker,
        subject,
        buffer,
        rent_min,
        program_id,
        delegation_program,
        system_program,
    ) {
        Ok(p) => p,
        Err(e) => {
            return Err(e);
        },
    };
    let mut payload: Vec<u8> = Vec::new();
    let mut i: usize = 0;
    while i < 8
        invariant
            i <= 8,
            payload@ == spec_payload_prefix().take(i as int),
        decreases 8 - i,
    {
        payload.push(0u8);
        proof {
            assert(spec_payload_prefix().take(i as int).push(0u8) =~= spec_payload_prefix().take(
                i + 1,
            ));
        }
        i += 1;
    }
    proof {
        assert(spec_payload_prefix().take(8) =~= spec_payload_prefix());
    }
    push_bytes(&mut payload, &encoded_args);
    Ok(
        DelegateOutcome {
            maker: maker_after,
            subject: subject_after,
            buffer: buffer_after,
            authority_payload: payload,
        },
    )
}

} // verus!
