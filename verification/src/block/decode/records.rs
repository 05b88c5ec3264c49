//! Records, which are preceded by their length.

use vstd::prelude::*;

use crate::amount::NativeCurrencyAmount;
use crate::block::Claim;
use crate::block::claim_views;
use crate::block::codec::additions_code;
use crate::block::codec::amount_code;
use crate::block::codec::announcement_code;
use crate::block::codec::announcements_code;
use crate::block::codec::bool_code;
use crate::block::codec::claim_code;
use crate::block::codec::coinbase_code;
use crate::block::codec::digests_code;
use crate::block::codec::kernel_code;
use crate::block::codec::mmr_code;
use crate::block::codec::removal_code;
use crate::block::codec::removals_code;
use crate::block::codec::sized;
use crate::block::codec::u64_code;
use crate::block::decode::elements::Read;
use crate::block::decode::elements::at;
use crate::block::decode::elements::lemma_at_concat;
use crate::block::decode::elements::lemma_at_sized;
use crate::block::decode::elements::read_amount;
use crate::block::decode::elements::read_bool;
use crate::block::decode::elements::read_coinbase;
use crate::block::decode::elements::read_digest;
use crate::block::decode::elements::read_element;
use crate::block::decode::elements::read_len;
use crate::block::decode::elements::read_u32;
use crate::block::decode::elements::read_u64;
use crate::block::decode::elements::read_words;
use crate::block::decode::lists::claims_code;
use crate::block::decode::lists::indices_code;
use crate::block::decode::lists::read_additions;
use crate::block::decode::lists::read_announcements;
use crate::block::decode::lists::read_claims;
use crate::block::decode::lists::read_digests;
use crate::block::decode::lists::read_indices;
use crate::block::decode::lists::read_removals;
use crate::digest::Digest;
use crate::mmr::MmrAccumulator;
use crate::timestamp::Timestamp;
use crate::transaction::AdditionRecord;
use crate::transaction::PublicAnnouncement;
use crate::transaction::RemovalRecord;
use crate::transaction::TransactionKernel;
use crate::transaction::messages;
use crate::transaction::removal_views;

verus! {

/// An addition record.
pub fn read_addition(s: &Vec<u64>, pos: usize) -> (r: Option<Read<AdditionRecord>>)
    requires
        pos <= s@.len(),
    ensures
        match r {
            Some(read) => at(s@, pos as int, read.value.canonical_commitment.values()) && read.end
                == pos + 5,
            None => true,
        },
        forall|x: AdditionRecord| #[trigger]
            at(s@, pos as int, x.canonical_commitment.values()) ==> r is Some && r->Some_0.value
                == x,
{
    match read_digest(s, pos) {
        Some(read) => Some(
            Read {
                value: AdditionRecord { canonical_commitment: read.value },
                end: read.end,
            },
        ),
        None => None,
    }
}

/// A list of numbers of four limbs, preceded by its length.
pub fn read_sized_indices(s: &Vec<u64>, pos: usize) -> (r: Option<Read<Vec<u128>>>)
    requires
        pos <= s@.len(),
    ensures
        match r {
            Some(read) => {
                &&& at(s@, pos as int, sized(indices_code(read.value@)))
                &&& read.end == pos + sized(indices_code(read.value@)).len()
            },
            None => true,
        },
        forall|x: Vec<u128>| #[trigger]
            at(s@, pos as int, sized(indices_code(x@))) ==> {
                &&& r is Some
                &&& r->Some_0.value@ == x@
                &&& r->Some_0.end == pos + sized(indices_code(x@)).len()
            },
{
    let len: Read<usize> = match read_len(s, pos) {
        Some(read) => read,
        None => {
            return None;
        },
    };
    let total: usize = s.len();
    let inner: Read<Vec<u128>> = match read_indices(s, len.end) {
        Some(read) => read,
        None => {
            return None;
        },
    };
    if inner.end - len.end != len.value {
        return None;
    }
    proof {
        lemma_at_sized(s@, pos as int, indices_code(inner.value@));
    }
    Some(inner)
}

/// A list of digests, preceded by its length.
pub fn read_sized_digests(s: &Vec<u64>, pos: usize) -> (r: Option<Read<Vec<Digest>>>)
    requires
        pos <= s@.len(),
    ensures
        match r {
            Some(read) => {
                &&& at(s@, pos as int, sized(digests_code(read.value@)))
                &&& read.end == pos + sized(digests_code(read.value@)).len()
            },
            None => true,
        },
        forall|x: Vec<Digest>| #[trigger]
            at(s@, pos as int, sized(digests_code(x@))) ==> {
                &&& r is Some
                &&& r->Some_0.value@ == x@
                &&& r->Some_0.end == pos + sized(digests_code(x@)).len()
            },
{
    let len: Read<usize> = match read_len(s, pos) {
        Some(read) => read,
        None => {
            return None;
        },
    };
    let total: usize = s.len();
    let inner: Read<Vec<Digest>> = match read_digests(s, len.end) {
        Some(read) => read,
        None => {
            return None;
        },
    };
    if inner.end - len.end != len.value {
        return None;
    }
    proof {
        lemma_at_sized(s@, pos as int, digests_code(inner.value@));
    }
    Some(inner)
}

/// A list of addition records, preceded by its length.
pub fn read_sized_additions(s: &Vec<u64>, pos: usize) -> (r: Option<Read<Vec<AdditionRecord>>>)
    requires
        pos <= s@.len(),
    ensures
        match r {
            Some(read) => {
                &&& at(s@, pos as int, sized(additions_code(read.value@)))
                &&& read.end == pos + sized(additions_code(read.value@)).len()
            },
            None => true,
        },
        forall|x: Vec<AdditionRecord>| #[trigger]
            at(s@, pos as int, sized(additions_code(x@))) ==> {
                &&& r is Some
                &&& r->Some_0.value@ == x@
                &&& r->Some_0.end == pos + sized(additions_code(x@)).len()
            },
{
    let len: Read<usize> = match read_len(s, pos) {
        Some(read) => read,
        None => {
            return None;
        },
    };
    let total: usize = s.len();
    let inner: Read<Vec<AdditionRecord>> = match read_additions(s, len.end) {
        Some(read) => read,
        None => {
            return None;
        },
    };
    if inner.end - len.end != len.value {
        return None;
    }
    proof {
        lemma_at_sized(s@, pos as int, additions_code(inner.value@));
    }
    Some(inner)
}

/// A list of removal records, preceded by its length.
pub fn read_sized_removals(s: &Vec<u64>, pos: usize) -> (r: Option<Read<Vec<RemovalRecord>>>)
    requires
        pos <= s@.len(),
    ensures
        match r {
            Some(read) => {
                &&& at(s@, pos as int, sized(removals_code(read.value@)))
                &&& read.end == pos + sized(removals_code(read.value@)).len()
            },
            None => true,
        },
        forall|x: Vec<RemovalRecord>| #[trigger]
            at(s@, pos as int, sized(removals_code(x@))) ==> {
                &&& r is Some
                &&& removal_views(r->Some_0.value@) == removal_views(x@)
                &&& r->Some_0.end == pos + sized(removals_code(x@)).len()
            },
{
    let len: Read<usize> = match read_len(s, pos) {
        Some(read) => read,
        None => {
            return None;
        },
    };
    let total: usize = s.len();
    let inner: Read<Vec<RemovalRecord>> = match read_removals(s, len.end) {
        Some(read) => read,
        None => {
            return None;
        },
    };
    if inner.end - len.end != len.value {
        return None;
    }
    proof {
        lemma_at_sized(s@, pos as int, removals_code(inner.value@));
    }
    Some(inner)
}

/// A list of public announcements, preceded by its length.
pub fn read_sized_announcements(s: &Vec<u64>, pos: usize) -> (r: Option<
    Read<Vec<PublicAnnouncement>>,
>)
    requires
        pos <= s@.len(),
    ensures
        match r {
            Some(read) => {
                &&& at(s@, pos as int, sized(announcements_code(read.value@)))
                &&& read.end == pos + sized(announcements_code(read.value@)).len()
            },
            None => true,
        },
        forall|x: Vec<PublicAnnouncement>| #[trigger]
            at(s@, pos as int, sized(announcements_code(x@))) ==> {
                &&& r is Some
                &&& messages(r->Some_0.value@) == messages(x@)
                &&& r->Some_0.end == pos + sized(announcements_code(x@)).len()
            },
{
    let len: Read<usize> = match read_len(s, pos) {
        Some(read) => read,
        None => {
            return None;
        },
    };
    let total: usize = s.len();
    let inner: Read<Vec<PublicAnnouncement>> = match read_announcements(s, len.end) {
        Some(read) => read,
        None => {
            return None;
        },
    };
    if inner.end - len.end != len.value {
        return None;
    }
    proof {
        lemma_at_sized(s@, pos as int, announcements_code(inner.value@));
    }
    Some(inner)
}

/// A list of claims, preceded by its length.
pub fn read_sized_claims(s: &Vec<u64>, pos: usize) -> (r: Option<Read<Vec<Claim>>>)
    requires
        pos <= s@.len(),
    ensures
        match r {
            Some(read) => {
                &&& at(s@, pos as int, sized(claims_code(read.value@)))
                &&& read.end == pos + sized(claims_code(read.value@)).len()
            },
            None => true,
        },
        forall|x: Vec<Claim>| #[trigger]
            at(s@, pos as int, sized(claims_code(x@))) ==> {
                &&& r is Some
                &&& claim_views(r->Some_0.value@) == claim_views(x@)
                &&& r->Some_0.end == pos + sized(claims_code(x@)).len()
            },
{
    let len: Read<usize> = match read_len(s, pos) {
        Some(read) => read,
        None => {
            return None;
        },
    };
    let total: usize = s.len();
    let inner: Read<Vec<Claim>> = match read_claims(s, len.end) {
        Some(read) => read,
        None => {
            return None;
        },
    };
    if inner.end - len.end != len.value {
        return None;
    }
    proof {
        lemma_at_sized(s@, pos as int, claims_code(inner.value@));
    }
    Some(inner)
}

/// Elements that are preceded by their number, preceded by the length of that.
pub fn read_sized_words(s: &Vec<u64>, pos: usize) -> (r: Option<Read<Vec<u64>>>)
    requires
        pos <= s@.len(),
    ensures
        match r {
            Some(read) => {
                &&& at(s@, pos as int, sized(sized(read.value@)))
                &&& read.end == pos + sized(sized(read.value@)).len()
            },
            None => true,
        },
        forall|x: Vec<u64>| #[trigger]
            at(s@, pos as int, sized(sized(x@))) ==> {
                &&& r is Some
                &&& r->Some_0.value@ == x@
                &&& r->Some_0.end == pos + sized(sized(x@)).len()
            },
{
    let len: Read<usize> = match read_len(s, pos) {
        Some(read) => read,
        None => {
            return None;
        },
    };
    let total: usize = s.len();
    let inner: Read<Vec<u64>> = match read_words(s, len.end) {
        Some(read) => read,
        None => {
            return None;
        },
    };
    if inner.end - len.end != len.value {
        return None;
    }
    proof {
        lemma_at_sized(s@, pos as int, sized(inner.value@));
    }
    Some(inner)
}

/// An amount, or none, preceded by its length.
pub fn read_sized_coinbase(s: &Vec<u64>, pos: usize) -> (r: Option<
    Read<Option<NativeCurrencyAmount>>,
>)
    requires
        pos <= s@.len(),
    ensures
        match r {
            Some(read) => {
                &&& at(s@, pos as int, sized(coinbase_code(read.value)))
                &&& read.end == pos + sized(coinbase_code(read.value)).len()
            },
            None => true,
        },
        forall|x: Option<NativeCurrencyAmount>| #[trigger]
            at(s@, pos as int, sized(coinbase_code(x))) ==> {
                &&& r is Some
                &&& r->Some_0.value == x
                &&& r->Some_0.end == pos + sized(coinbase_code(x)).len()
            },
{
    let len: Read<usize> = match read_len(s, pos) {
        Some(read) => read,
        None => {
            return None;
        },
    };
    let total: usize = s.len();
    let inner: Read<Option<NativeCurrencyAmount>> = match read_coinbase(s, len.end) {
        Some(read) => read,
        None => {
            return None;
        },
    };
    if inner.end - len.end != len.value {
        return None;
    }
    proof {
        lemma_at_sized(s@, pos as int, coinbase_code(inner.value));
    }
    Some(inner)
}

/// What lies at some position if a removal record does.
pub open spec fn removal_fields_at(s: Seq<u64>, pos: int, x: RemovalRecord) -> bool {
    let chunks = sized(x.target_chunks@);
    let indices = sized(indices_code(x.absolute_indices@));
    let p1 = pos + chunks.len();
    &&& at(s, pos, chunks)
    &&& at(s, p1, indices)
    &&& removal_code(x).len() == p1 + indices.len() - pos
}

/// A removal record lies at some position if its fields lie there, one after the other.
pub proof fn lemma_at_removal(s: Seq<u64>, pos: int, x: RemovalRecord)
    ensures
        at(s, pos, removal_code(x)) <==> removal_fields_at(s, pos, x),
{
    let chunks = sized(x.target_chunks@);
    let indices = sized(indices_code(x.absolute_indices@));
    lemma_at_concat(s, pos, chunks, indices);
}

/// A removal record, preceded by its length.
pub fn read_removal(s: &Vec<u64>, pos: usize) -> (r: Option<Read<RemovalRecord>>)
    requires
        pos <= s@.len(),
    ensures
        match r {
            Some(read) => {
                &&& at(s@, pos as int, sized(removal_code(read.value)))
                &&& read.end == pos + sized(removal_code(read.value)).len()
            },
            None => true,
        },
        forall|x: RemovalRecord| #[trigger]
            at(s@, pos as int, sized(removal_code(x))) ==> {
                &&& r is Some
                &&& r->Some_0.value@ == x@
                &&& r->Some_0.end == pos + sized(removal_code(x)).len()
            },
{
    let total: usize = s.len();
    proof {
        assert forall|x: RemovalRecord| #[trigger]
            at(s@, pos as int, sized(removal_code(x))) implies {
            &&& pos < s@.len()
            &&& s@[pos as int] == removal_code(x).len()
            &&& removal_fields_at(s@, pos + 1, x)
        } by {
            lemma_at_sized(s@, pos as int, removal_code(x));
            lemma_at_removal(s@, pos + 1, x);
        }
    }
    if pos >= s.len() {
        return None;
    }
    let len: u64 = s[pos];
    let chunks: Read<Vec<u64>> = match read_words(s, pos + 1) {
        Some(read) => read,
        None => {
            return None;
        },
    };
    let indices: Read<Vec<u128>> = match read_sized_indices(s, chunks.end) {
        Some(read) => read,
        None => {
            return None;
        },
    };
    if len != (indices.end - pos - 1) as u64 {
        return None;
    }
    let end: usize = indices.end;
    let value = RemovalRecord { absolute_indices: indices.value, target_chunks: chunks.value };
    proof {
        lemma_at_removal(s@, pos + 1, value);
        lemma_at_sized(s@, pos as int, removal_code(value));
    }
    Some(Read { value, end })
}

/// What lies at some position if a public announcement does.
pub open spec fn announcement_fields_at(s: Seq<u64>, pos: int, x: PublicAnnouncement) -> bool {
    let message = sized(sized(x.message@));
    &&& at(s, pos, message)
    &&& announcement_code(x).len() == pos + message.len() - pos
}

/// A public announcement lies at some position if its fields lie there, one after the other.
pub proof fn lemma_at_announcement(s: Seq<u64>, pos: int, x: PublicAnnouncement)
    ensures
        at(s, pos, announcement_code(x)) <==> announcement_fields_at(s, pos, x),
{
}

/// A public announcement, preceded by its length.
pub fn read_announcement(s: &Vec<u64>, pos: usize) -> (r: Option<Read<PublicAnnouncement>>)
    requires
        pos <= s@.len(),
    ensures
        match r {
            Some(read) => {
                &&& at(s@, pos as int, sized(announcement_code(read.value)))
                &&& read.end == pos + sized(announcement_code(read.value)).len()
            },
            None => true,
        },
        forall|x: PublicAnnouncement| #[trigger]
            at(s@, pos as int, sized(announcement_code(x))) ==> {
                &&& r is Some
                &&& r->Some_0.value.message@ == x.message@
                &&& r->Some_0.end == pos + sized(announcement_code(x)).len()
            },
{
    let total: usize = s.len();
    proof {
        assert forall|x: PublicAnnouncement| #[trigger]
            at(s@, pos as int, sized(announcement_code(x))) implies {
            &&& pos < s@.len()
            &&& s@[pos as int] == announcement_code(x).len()
            &&& announcement_fields_at(s@, pos + 1, x)
        } by {
            lemma_at_sized(s@, pos as int, announcement_code(x));
            lemma_at_announcement(s@, pos + 1, x);
        }
    }
    if pos >= s.len() {
        return None;
    }
    let len: u64 = s[pos];
    let message: Read<Vec<u64>> = match read_sized_words(s, pos + 1) {
        Some(read) => read,
        None => {
            return None;
        },
    };
    if len != (message.end - pos - 1) as u64 {
        return None;
    }
    let end: usize = message.end;
    let value = PublicAnnouncement { message: message.value };
    proof {
        lemma_at_announcement(s@, pos + 1, value);
        lemma_at_sized(s@, pos as int, announcement_code(value));
    }
    Some(Read { value, end })
}

/// What lies at some position if a claim does.
pub open spec fn claim_fields_at(s: Seq<u64>, pos: int, x: Claim) -> bool {
    let output = sized(sized(x.output@));
    let input = sized(sized(x.input@));
    let version = seq![x.version as u64];
    let program = x.program_digest.values();
    let p1 = pos + output.len();
    let p2 = p1 + input.len();
    let p3 = p2 + version.len();
    &&& at(s, pos, output)
    &&& at(s, p1, input)
    &&& at(s, p2, version)
    &&& at(s, p3, program)
    &&& claim_code(x).len() == p3 + program.len() - pos
}

/// A claim lies at some position if its fields lie there, one after the other.
pub proof fn lemma_at_claim(s: Seq<u64>, pos: int, x: Claim)
    ensures
        at(s, pos, claim_code(x)) <==> claim_fields_at(s, pos, x),
{
    let output = sized(sized(x.output@));
    let input = sized(sized(x.input@));
    let version = seq![x.version as u64];
    let program = x.program_digest.values();
    lemma_at_concat(s, pos, output + input + version, program);
    lemma_at_concat(s, pos, output + input, version);
    lemma_at_concat(s, pos, output, input);
}

/// A claim, preceded by its length.
pub fn read_claim(s: &Vec<u64>, pos: usize) -> (r: Option<Read<Claim>>)
    requires
        pos <= s@.len(),
    ensures
        match r {
            Some(read) => {
                &&& at(s@, pos as int, sized(claim_code(read.value)))
                &&& read.end == pos + sized(claim_code(read.value)).len()
            },
            None => true,
        },
        forall|x: Claim| #[trigger]
            at(s@, pos as int, sized(claim_code(x))) ==> {
                &&& r is Some
                &&& r->Some_0.value@ == x@
                &&& r->Some_0.end == pos + sized(claim_code(x)).len()
            },
{
    let total: usize = s.len();
    proof {
        assert forall|x: Claim| #[trigger] at(s@, pos as int, sized(claim_code(x))) implies {
            &&& pos < s@.len()
            &&& s@[pos as int] == claim_code(x).len()
            &&& claim_fields_at(s@, pos + 1, x)
        } by {
            lemma_at_sized(s@, pos as int, claim_code(x));
            lemma_at_claim(s@, pos + 1, x);
        }
    }
    if pos >= s.len() {
        return None;
    }
    let len: u64 = s[pos];
    let output: Read<Vec<u64>> = match read_sized_words(s, pos + 1) {
        Some(read) => read,
        None => {
            return None;
        },
    };
    let input: Read<Vec<u64>> = match read_sized_words(s, output.end) {
        Some(read) => read,
        None => {
            return None;
        },
    };
    let version: Read<u32> = match read_u32(s, input.end) {
        Some(read) => read,
        None => {
            return None;
        },
    };
    let program: Read<Digest> = match read_digest(s, version.end) {
        Some(read) => read,
        None => {
            return None;
        },
    };
    if len != (program.end - pos - 1) as u64 {
        return None;
    }
    let end: usize = program.end;
    let value = Claim {
        program_digest: program.value,
        version: version.value,
        input: input.value,
        output: output.value,
    };
    proof {
        lemma_at_claim(s@, pos + 1, value);
        lemma_at_sized(s@, pos as int, claim_code(value));
    }
    Some(Read { value, end })
}

/// What lies at some position if a Merkle mountain range accumulator does.
pub open spec fn mmr_fields_at(s: Seq<u64>, pos: int, x: MmrAccumulator) -> bool {
    let peaks = sized(digests_code(x.peaks@));
    let leaf_count = u64_code(x.leaf_count);
    let p1 = pos + peaks.len();
    &&& at(s, pos, peaks)
    &&& at(s, p1, leaf_count)
    &&& mmr_code(x).len() == p1 + leaf_count.len() - pos
}

/// An accumulator lies at some position if its fields lie there, one after the other.
pub proof fn lemma_at_mmr(s: Seq<u64>, pos: int, x: MmrAccumulator)
    ensures
        at(s, pos, mmr_code(x)) <==> mmr_fields_at(s, pos, x),
{
    let peaks = sized(digests_code(x.peaks@));
    let leaf_count = u64_code(x.leaf_count);
    lemma_at_concat(s, pos, peaks, leaf_count);
}

/// A Merkle mountain range accumulator, preceded by its length.
pub fn read_mmr(s: &Vec<u64>, pos: usize) -> (r: Option<Read<MmrAccumulator>>)
    requires
        pos <= s@.len(),
    ensures
        match r {
            Some(read) => {
                &&& at(s@, pos as int, sized(mmr_code(read.value)))
                &&& read.end == pos + sized(mmr_code(read.value)).len()
            },
            None => true,
        },
        forall|x: MmrAccumulator| #[trigger]
            at(s@, pos as int, sized(mmr_code(x))) ==> {
                &&& r is Some
                &&& r->Some_0.value@ == x@
                &&& r->Some_0.end == pos + sized(mmr_code(x)).len()
            },
{
    let total: usize = s.len();
    proof {
        assert forall|x: MmrAccumulator| #[trigger] at(s@, pos as int, sized(mmr_code(x))) implies {
            &&& pos < s@.len()
            &&& s@[pos as int] == mmr_code(x).len()
            &&& mmr_fields_at(s@, pos + 1, x)
        } by {
            lemma_at_sized(s@, pos as int, mmr_code(x));
            lemma_at_mmr(s@, pos + 1, x);
        }
    }
    if pos >= s.len() {
        return None;
    }
    let len: u64 = s[pos];
    let peaks: Read<Vec<Digest>> = match read_sized_digests(s, pos + 1) {
        Some(read) => read,
        None => {
            return None;
        },
    };
    let leaf_count: Read<u64> = match read_u64(s, peaks.end) {
        Some(read) => read,
        None => {
            return None;
        },
    };
    if len != (leaf_count.end - pos - 1) as u64 {
        return None;
    }
    let end: usize = leaf_count.end;
    let value = MmrAccumulator { leaf_count: leaf_count.value, peaks: peaks.value };
    proof {
        lemma_at_mmr(s@, pos + 1, value);
        lemma_at_sized(s@, pos as int, mmr_code(value));
    }
    Some(Read { value, end })
}

/// What lies at some position if a transaction kernel does.
pub open spec fn kernel_fields_at(s: Seq<u64>, pos: int, x: TransactionKernel) -> bool {
    let merge_bit = bool_code(x.merge_bit);
    let mutator_set_hash = x.mutator_set_hash.values();
    let timestamp = seq![x.timestamp.millis];
    let coinbase = sized(coinbase_code(x.coinbase));
    let fee = amount_code(x.fee);
    let announcements = sized(announcements_code(x.public_announcements@));
    let outputs = sized(additions_code(x.outputs@));
    let inputs = sized(removals_code(x.inputs@));
    let p1 = pos + merge_bit.len();
    let p2 = p1 + mutator_set_hash.len();
    let p3 = p2 + timestamp.len();
    let p4 = p3 + coinbase.len();
    let p5 = p4 + fee.len();
    let p6 = p5 + announcements.len();
    let p7 = p6 + outputs.len();
    &&& at(s, pos, merge_bit)
    &&& at(s, p1, mutator_set_hash)
    &&& at(s, p2, timestamp)
    &&& at(s, p3, coinbase)
    &&& at(s, p4, fee)
    &&& at(s, p5, announcements)
    &&& at(s, p6, outputs)
    &&& at(s, p7, inputs)
    &&& kernel_code(x).len() == p7 + inputs.len() - pos
}

/// A transaction kernel lies at some position if its fields lie there, one after the other.
proof fn lemma_at_kernel(s: Seq<u64>, pos: int, x: TransactionKernel)
    ensures
        at(s, pos, kernel_code(x)) <==> kernel_fields_at(s, pos, x),
{
    let merge_bit = bool_code(x.merge_bit);
    let mutator_set_hash = x.mutator_set_hash.values();
    let timestamp = seq![x.timestamp.millis];
    let coinbase = sized(coinbase_code(x.coinbase));
    let fee = amount_code(x.fee);
    let announcements = sized(announcements_code(x.public_announcements@));
    let outputs = sized(additions_code(x.outputs@));
    let inputs = sized(removals_code(x.inputs@));
    lemma_at_concat(
        s,
        pos,
        merge_bit + mutator_set_hash + timestamp + coinbase + fee + announcements + outputs,
        inputs,
    );
    lemma_at_concat(
        s,
        pos,
        merge_bit + mutator_set_hash + timestamp + coinbase + fee + announcements,
        outputs,
    );
    lemma_at_concat(
        s,
        pos,
        merge_bit + mutator_set_hash + timestamp + coinbase + fee,
        announcements,
    );
    lemma_at_concat(s, pos, merge_bit + mutator_set_hash + timestamp + coinbase, fee);
    lemma_at_concat(s, pos, merge_bit + mutator_set_hash + timestamp, coinbase);
    lemma_at_concat(s, pos, merge_bit + mutator_set_hash, timestamp);
    lemma_at_concat(s, pos, merge_bit, mutator_set_hash);
}

/// A transaction kernel, preceded by its length.
pub fn read_kernel(s: &Vec<u64>, pos: usize) -> (r: Option<Read<TransactionKernel>>)
    requires
        pos <= s@.len(),
    ensures
        match r {
            Some(read) => {
                &&& at(s@, pos as int, sized(kernel_code(read.value)))
                &&& read.end == pos + sized(kernel_code(read.value)).len()
            },
            None => true,
        },
        forall|x: TransactionKernel| #[trigger]
            at(s@, pos as int, sized(kernel_code(x))) ==> {
                &&& r is Some
                &&& r->Some_0.value@ == x@
                &&& r->Some_0.end == pos + sized(kernel_code(x)).len()
            },
{
    let total: usize = s.len();
    proof {
        assert forall|x: TransactionKernel| #[trigger]
            at(s@, pos as int, sized(kernel_code(x))) implies {
            &&& pos < s@.len()
            &&& s@[pos as int] == kernel_code(x).len()
            &&& kernel_fields_at(s@, pos + 1, x)
        } by {
            lemma_at_sized(s@, pos as int, kernel_code(x));
            lemma_at_kernel(s@, pos + 1, x);
        }
    }
    if pos >= s.len() {
        return None;
    }
    let len: u64 = s[pos];
    let merge_bit: Read<bool> = match read_bool(s, pos + 1) {
        Some(read) => read,
        None => {
            return None;
        },
    };
    let mutator_set_hash: Read<Digest> = match read_digest(s, merge_bit.end) {
        Some(read) => read,
        None => {
            return None;
        },
    };
    let timestamp: Read<u64> = match read_element(s, mutator_set_hash.end) {
        Some(read) => read,
        None => {
            return None;
        },
    };
    let coinbase: Read<Option<NativeCurrencyAmount>> = match read_sized_coinbase(s, timestamp.end) {
        Some(read) => read,
        None => {
            return None;
        },
    };
    let fee: Read<NativeCurrencyAmount> = match read_amount(s, coinbase.end) {
        Some(read) => read,
        None => {
            return None;
        },
    };
    let announcements: Read<Vec<PublicAnnouncement>> = match read_sized_announcements(s, fee.end) {
        Some(read) => read,
        None => {
            return None;
        },
    };
    let outputs: Read<Vec<AdditionRecord>> = match read_sized_additions(s, announcements.end) {
        Some(read) => read,
        None => {
            return None;
        },
    };
    let inputs: Read<Vec<RemovalRecord>> = match read_sized_removals(s, outputs.end) {
        Some(read) => read,
        None => {
            return None;
        },
    };
    if len != (inputs.end - pos - 1) as u64 {
        return None;
    }
    let end: usize = inputs.end;
    let value = TransactionKernel {
        inputs: inputs.value,
        outputs: outputs.value,
        public_announcements: announcements.value,
        fee: fee.value,
        coinbase: coinbase.value,
        timestamp: Timestamp { millis: timestamp.value },
        mutator_set_hash: mutator_set_hash.value,
        merge_bit: merge_bit.value,
    };
    proof {
        lemma_at_kernel(s@, pos + 1, value);
        lemma_at_sized(s@, pos as int, kernel_code(value));
    }
    Some(Read { value, end })
}

} // verus!
