//! Encodings do not leave anything out: what is encoded can be told from its encoding.

use vstd::prelude::*;

use crate::amount::NativeCurrencyAmount;
use crate::block::claim_views;
use crate::block::codec::additions_code;
use crate::block::codec::amount_code;
use crate::block::codec::announcement_code;
use crate::block::codec::announcements_code;
use crate::block::codec::appendix_code;
use crate::block::codec::bool_code;
use crate::block::codec::claim_code;
use crate::block::codec::coin_code;
use crate::block::codec::coinbase_code;
use crate::block::codec::concat_all;
use crate::block::codec::difficulty_code;
use crate::block::codec::digests_code;
use crate::block::codec::listed;
use crate::block::codec::mmr_code;
use crate::block::codec::proof_of_work_code;
use crate::block::codec::removal_code;
use crate::block::codec::removals_code;
use crate::block::codec::sized;
use crate::block::codec::u128_code;
use crate::block::codec::u64_code;
use crate::block::codec::utxo_code;
use crate::block::decode::blocks::lemma_at_appendix;
use crate::block::decode::elements::at;
use crate::block::decode::elements::lemma_at_concat;
use crate::block::decode::elements::lemma_at_sized;
use crate::block::decode::elements::lemma_sum_of_limbs;
use crate::block::decode::elements::lemma_u128_code_at;
use crate::block::decode::lists::addition_parts;
use crate::block::decode::lists::announcement_parts;
use crate::block::decode::lists::claim_parts;
use crate::block::decode::lists::claims_code;
use crate::block::decode::lists::digest_parts;
use crate::block::decode::lists::index_parts;
use crate::block::decode::lists::indices_code;
use crate::block::decode::lists::lemma_at_listed;
use crate::block::decode::lists::lemma_at_part;
use crate::block::decode::lists::removal_parts;
use crate::block::decode::records::lemma_at_announcement;
use crate::block::decode::records::lemma_at_claim;
use crate::block::decode::records::lemma_at_mmr;
use crate::block::decode::records::lemma_at_removal;
use crate::block::BlockAppendix;
use crate::block::Claim;
use crate::difficulty::Difficulty;
use crate::difficulty::ProofOfWork;
use crate::digest::Digest;
use crate::mmr::MmrAccumulator;
use crate::transaction::messages;
use crate::transaction::removal_views;
use crate::transaction::AdditionRecord;
use crate::transaction::Coin;
use crate::transaction::PublicAnnouncement;
use crate::transaction::RemovalRecord;
use crate::transaction::TypeScriptHashes;
use crate::transaction::UtxoView;

verus! {

/// A sequence lies at its own start.
pub proof fn lemma_at_start(s: Seq<u64>)
    ensures
        at(s, 0, s),
{
    assert(s.subrange(0, s.len() as int) =~= s);
}

/// Two sequences that are preceded by their lengths and lie at the same position are the same.
pub proof fn lemma_sized_unique(s: Seq<u64>, pos: int, x: Seq<u64>, y: Seq<u64>)
    requires
        s.len() <= u64::MAX,
        at(s, pos, sized(x)),
        at(s, pos, sized(y)),
    ensures
        x == y,
{
    lemma_at_sized(s, pos, x);
    lemma_at_sized(s, pos, y);
}

/// A sequence that is preceded by its length is known by what follows the length.
pub proof fn lemma_without_size(x: Seq<u64>)
    ensures
        sized(x).skip(1) == x,
{
    assert(sized(x).skip(1) =~= x);
}

/// Two lists that lie at the same position are the same, if that is so of their items.
pub proof fn lemma_list_unique(s: Seq<u64>, pos: int, xs: Seq<Seq<u64>>, ys: Seq<Seq<u64>>)
    requires
        xs.len() <= u64::MAX,
        ys.len() <= u64::MAX,
        at(s, pos, listed(xs)),
        at(s, pos, listed(ys)),
        forall|i: int, p: int|
            0 <= i < xs.len() && 0 <= i < ys.len() && #[trigger] at(s, p, xs[i]) && at(s, p, ys[i])
                ==> xs[i] == ys[i],
    ensures
        xs == ys,
{
    lemma_at_listed(s, pos, xs);
    lemma_at_listed(s, pos, ys);
    assert(xs.len() == ys.len());
    lemma_parts_agree(s, pos + 1, xs, ys, xs.len() as int);
    assert(xs.take(xs.len() as int) =~= xs);
    assert(ys.take(ys.len() as int) =~= ys);
}

proof fn lemma_parts_agree(
    s: Seq<u64>,
    pos: int,
    xs: Seq<Seq<u64>>,
    ys: Seq<Seq<u64>>,
    count: int,
)
    requires
        xs.len() == ys.len(),
        at(s, pos, concat_all(xs)),
        at(s, pos, concat_all(ys)),
        forall|i: int, p: int|
            0 <= i < xs.len() && 0 <= i < ys.len() && #[trigger] at(s, p, xs[i]) && at(s, p, ys[i])
                ==> xs[i] == ys[i],
        0 <= count <= xs.len(),
    ensures
        xs.take(count) == ys.take(count),
    decreases count,
{
    if count == 0 {
        assert(xs.take(0) =~= ys.take(0));
    } else {
        let i = count - 1;
        lemma_parts_agree(s, pos, xs, ys, i);
        lemma_at_part(s, pos, xs, i);
        lemma_at_part(s, pos, ys, i);
        assert(xs[i] == ys[i]);
        assert(xs.take(count) =~= xs.take(i).push(xs[i]));
        assert(ys.take(count) =~= ys.take(i).push(ys[i]));
    }
}

/// A number is known by its two limbs.
pub proof fn lemma_u64_code_injective(x: u64, y: u64)
    requires
        u64_code(x) == u64_code(y),
    ensures
        x == y,
{
    assert(u64_code(x)[0] == u64_code(y)[0] && u64_code(x)[1] == u64_code(y)[1]);
}

/// A number is known by its four limbs.
pub proof fn lemma_u128_code_injective(x: u128, y: u128)
    requires
        u128_code(x) == u128_code(y),
    ensures
        x == y,
{
    let s = u128_code(x);
    lemma_at_start(s);
    lemma_u128_code_at(s, 0, x);
    lemma_u128_code_at(s, 0, y);
    lemma_sum_of_limbs(x as int);
    lemma_sum_of_limbs(y as int);
}

/// An amount is known by its encoding.
pub proof fn lemma_amount_code_injective(x: NativeCurrencyAmount, y: NativeCurrencyAmount)
    requires
        amount_code(x) == amount_code(y),
    ensures
        x == y,
{
    lemma_u128_code_injective(x.nau as u128, y.nau as u128);
    let a: i128 = x.nau;
    let b: i128 = y.nau;
    assert(a as u128 == b as u128 ==> a == b) by (bit_vector);
}

/// An amount that may be missing is known by its encoding.
pub proof fn lemma_coinbase_code_injective(
    x: Option<NativeCurrencyAmount>,
    y: Option<NativeCurrencyAmount>,
)
    requires
        coinbase_code(x) == coinbase_code(y),
    ensures
        x == y,
{
    let cx = coinbase_code(x);
    let cy = coinbase_code(y);
    assert(cx[0] == cy[0]);
    match (x, y) {
        (Some(a), Some(b)) => {
            assert(cx.skip(1) =~= amount_code(a));
            assert(cy.skip(1) =~= amount_code(b));
            lemma_amount_code_injective(a, b);
        },
        _ => {},
    }
}

/// A truth value is known by its encoding.
pub proof fn lemma_bool_code_injective(x: bool, y: bool)
    requires
        bool_code(x) == bool_code(y),
    ensures
        x == y,
{
    assert(bool_code(x)[0] == (if x {
        1u64
    } else {
        0u64
    }));
    assert(bool_code(y)[0] == (if y {
        1u64
    } else {
        0u64
    }));
}

/// A digest is known by its elements.
pub proof fn lemma_digest_values_injective(x: Digest, y: Digest)
    requires
        x.values() == y.values(),
    ensures
        x == y,
{
    let a = x.values();
    let b = y.values();
    assert(a[0] == b[0] && a[1] == b[1] && a[2] == b[2] && a[3] == b[3] && a[4] == b[4]);
}

/// A difficulty is known by its encoding.
pub proof fn lemma_difficulty_code_injective(x: Difficulty, y: Difficulty)
    requires
        difficulty_code(x) == difficulty_code(y),
    ensures
        x == y,
{
    let a = difficulty_code(x);
    let b = difficulty_code(y);
    assert(u64_code(x.lo) =~= a.subrange(0, 2) && u64_code(y.lo) =~= b.subrange(0, 2));
    assert(u64_code(x.mid) =~= a.subrange(2, 4) && u64_code(y.mid) =~= b.subrange(2, 4));
    assert(a[4] == x.hi as u64 && b[4] == y.hi as u64);
    lemma_u64_code_injective(x.lo, y.lo);
    lemma_u64_code_injective(x.mid, y.mid);
}

/// Accumulated proof-of-work is known by its encoding.
pub proof fn lemma_proof_of_work_code_injective(x: ProofOfWork, y: ProofOfWork)
    requires
        proof_of_work_code(x) == proof_of_work_code(y),
    ensures
        x == y,
{
    let a = proof_of_work_code(x);
    let b = proof_of_work_code(y);
    assert(u64_code(x.sum.lo) =~= a.subrange(0, 2) && u64_code(y.sum.lo) =~= b.subrange(0, 2));
    assert(u64_code(x.sum.mid) =~= a.subrange(2, 4) && u64_code(y.sum.mid) =~= b.subrange(2, 4));
    assert(u64_code(x.sum.hi) =~= a.subrange(4, 6) && u64_code(y.sum.hi) =~= b.subrange(4, 6));
    lemma_u64_code_injective(x.sum.lo, y.sum.lo);
    lemma_u64_code_injective(x.sum.mid, y.sum.mid);
    lemma_u64_code_injective(x.sum.hi, y.sum.hi);
}

/// A list of digests is known by its encoding.
pub proof fn lemma_digests_code_injective(xs: Seq<Digest>, ys: Seq<Digest>)
    requires
        digests_code(xs) == digests_code(ys),
        xs.len() <= u64::MAX,
        ys.len() <= u64::MAX,
    ensures
        xs == ys,
{
    let s = digests_code(xs);
    lemma_at_start(s);
    let px = digest_parts(xs);
    let py = digest_parts(ys);
    lemma_list_unique(s, 0, px, py);
    assert forall|i: int| 0 <= i < xs.len() implies xs[i] == ys[i] by {
        assert(px[i] == py[i]);
        lemma_digest_values_injective(xs[i], ys[i]);
    }
    assert(px.len() == xs.len() && py.len() == ys.len());
    assert(xs =~= ys);
}

/// A list of addition records is known by its encoding.
pub proof fn lemma_additions_code_injective(xs: Seq<AdditionRecord>, ys: Seq<AdditionRecord>)
    requires
        additions_code(xs) == additions_code(ys),
        xs.len() <= u64::MAX,
        ys.len() <= u64::MAX,
    ensures
        xs == ys,
{
    let s = additions_code(xs);
    lemma_at_start(s);
    let px = addition_parts(xs);
    let py = addition_parts(ys);
    lemma_list_unique(s, 0, px, py);
    assert forall|i: int| 0 <= i < xs.len() implies xs[i] == ys[i] by {
        assert(px[i] == py[i]);
        lemma_digest_values_injective(xs[i].canonical_commitment, ys[i].canonical_commitment);
    }
    assert(px.len() == xs.len() && py.len() == ys.len());
    assert(xs =~= ys);
}

/// A list of indices is known by its encoding.
pub proof fn lemma_indices_code_injective(xs: Seq<u128>, ys: Seq<u128>)
    requires
        indices_code(xs) == indices_code(ys),
        xs.len() <= u64::MAX,
        ys.len() <= u64::MAX,
    ensures
        xs == ys,
{
    let s = indices_code(xs);
    lemma_at_start(s);
    let px = index_parts(xs);
    let py = index_parts(ys);
    lemma_list_unique(s, 0, px, py);
    assert forall|i: int| 0 <= i < xs.len() implies xs[i] == ys[i] by {
        assert(px[i] == py[i]);
        lemma_u128_code_injective(xs[i], ys[i]);
    }
    assert(px.len() == xs.len() && py.len() == ys.len());
    assert(xs =~= ys);
}

/// A removal record is known by its encoding.
pub proof fn lemma_removal_code_injective(x: RemovalRecord, y: RemovalRecord)
    requires
        removal_code(x) == removal_code(y),
        removal_code(x).len() <= u64::MAX,
    ensures
        x@ == y@,
{
    let s = removal_code(x);
    lemma_at_start(s);
    lemma_at_removal(s, 0, x);
    lemma_at_removal(s, 0, y);
    lemma_sized_unique(s, 0, x.target_chunks@, y.target_chunks@);
    let p = sized(x.target_chunks@).len() as int;
    lemma_sized_unique(
        s,
        p,
        indices_code(x.absolute_indices@),
        indices_code(y.absolute_indices@),
    );
    assert(x.absolute_indices.len() == x.absolute_indices@.len());
    assert(y.absolute_indices.len() == y.absolute_indices@.len());
    lemma_indices_code_injective(x.absolute_indices@, y.absolute_indices@);
}

/// A list of removal records is known by its encoding.
pub proof fn lemma_removals_code_injective(xs: Seq<RemovalRecord>, ys: Seq<RemovalRecord>)
    requires
        removals_code(xs) == removals_code(ys),
        removals_code(xs).len() <= u64::MAX,
        xs.len() <= u64::MAX,
        ys.len() <= u64::MAX,
    ensures
        removal_views(xs) == removal_views(ys),
{
    let s = removals_code(xs);
    lemma_at_start(s);
    let px = removal_parts(xs);
    let py = removal_parts(ys);
    assert forall|i: int, p: int|
        0 <= i < px.len() && 0 <= i < py.len() && #[trigger] at(s, p, px[i]) && at(
            s,
            p,
            py[i],
        ) implies px[i] == py[i] by {
        lemma_sized_unique(s, p, removal_code(xs[i]), removal_code(ys[i]));
    }
    lemma_list_unique(s, 0, px, py);
    assert(px.len() == xs.len() && py.len() == ys.len());
    lemma_at_listed(s, 0, px);
    assert forall|i: int| 0 <= i < xs.len() implies removal_views(xs)[i] == removal_views(
        ys,
    )[i] by {
        assert(px[i] == py[i]);
        lemma_at_part(s, 1, px, i);
        let p = 1 + concat_all(px.take(i)).len() as int;
        lemma_at_sized(s, p, removal_code(xs[i]));
        lemma_sized_unique(s, p, removal_code(xs[i]), removal_code(ys[i]));
        lemma_removal_code_injective(xs[i], ys[i]);
    }
    assert(removal_views(xs) =~= removal_views(ys));
}

/// A list of public announcements is known by its encoding.
pub proof fn lemma_announcements_code_injective(
    xs: Seq<PublicAnnouncement>,
    ys: Seq<PublicAnnouncement>,
)
    requires
        announcements_code(xs) == announcements_code(ys),
        announcements_code(xs).len() <= u64::MAX,
        xs.len() <= u64::MAX,
        ys.len() <= u64::MAX,
    ensures
        messages(xs) == messages(ys),
{
    let s = announcements_code(xs);
    lemma_at_start(s);
    let px = announcement_parts(xs);
    let py = announcement_parts(ys);
    assert forall|i: int, p: int|
        0 <= i < px.len() && 0 <= i < py.len() && #[trigger] at(s, p, px[i]) && at(
            s,
            p,
            py[i],
        ) implies px[i] == py[i] by {
        lemma_sized_unique(s, p, announcement_code(xs[i]), announcement_code(ys[i]));
    }
    lemma_list_unique(s, 0, px, py);
    assert(px.len() == xs.len() && py.len() == ys.len());
    lemma_at_listed(s, 0, px);
    assert forall|i: int| 0 <= i < xs.len() implies messages(xs)[i] == messages(ys)[i] by {
        assert(px[i] == py[i]);
        lemma_at_part(s, 1, px, i);
        let p = 1 + concat_all(px.take(i)).len() as int;
        lemma_at_sized(s, p, announcement_code(xs[i]));
        lemma_sized_unique(s, p, announcement_code(xs[i]), announcement_code(ys[i]));
        lemma_at_announcement(s, p + 1, xs[i]);
        lemma_at_announcement(s, p + 1, ys[i]);
        lemma_sized_unique(s, p + 1, sized(xs[i].message@), sized(ys[i].message@));
        lemma_at_sized(s, p + 1, sized(xs[i].message@));
        lemma_sized_unique(s, p + 2, xs[i].message@, ys[i].message@);
    }
    assert(messages(xs) =~= messages(ys));
}

/// A Merkle mountain range accumulator is known by its encoding.
pub proof fn lemma_mmr_code_injective(x: MmrAccumulator, y: MmrAccumulator)
    requires
        mmr_code(x) == mmr_code(y),
        mmr_code(x).len() <= u64::MAX,
    ensures
        x@ == y@,
{
    let s = mmr_code(x);
    lemma_at_start(s);
    lemma_at_mmr(s, 0, x);
    lemma_at_mmr(s, 0, y);
    lemma_sized_unique(s, 0, digests_code(x.peaks@), digests_code(y.peaks@));
    assert(x.peaks.len() == x.peaks@.len() && y.peaks.len() == y.peaks@.len());
    lemma_digests_code_injective(x.peaks@, y.peaks@);
    let p = sized(digests_code(x.peaks@)).len() as int;
    assert(at(s, p, u64_code(x.leaf_count)) && at(s, p, u64_code(y.leaf_count)));
    lemma_u64_code_injective(x.leaf_count, y.leaf_count);
}

/// A claim is known by its encoding.
pub proof fn lemma_claim_code_injective(x: Claim, y: Claim)
    requires
        claim_code(x) == claim_code(y),
        claim_code(x).len() <= u64::MAX,
    ensures
        x@ == y@,
{
    let s = claim_code(x);
    lemma_at_start(s);
    lemma_at_claim(s, 0, x);
    lemma_at_claim(s, 0, y);
    lemma_sized_unique(s, 0, sized(x.output@), sized(y.output@));
    lemma_at_sized(s, 0, sized(x.output@));
    lemma_sized_unique(s, 1, x.output@, y.output@);
    let p1 = sized(sized(x.output@)).len() as int;
    lemma_sized_unique(s, p1, sized(x.input@), sized(y.input@));
    lemma_at_sized(s, p1, sized(x.input@));
    lemma_sized_unique(s, p1 + 1, x.input@, y.input@);
    let p2 = p1 + sized(sized(x.input@)).len();
    let vx = seq![x.version as u64];
    let vy = seq![y.version as u64];
    assert(at(s, p2, vx) && at(s, p2, vy));
    assert(vx[0] == vy[0]);
    assert(at(s, p2 + 1, x.program_digest.values()) && at(s, p2 + 1, y.program_digest.values()));
    lemma_digest_values_injective(x.program_digest, y.program_digest);
}

/// A block appendix is known by its encoding.
pub proof fn lemma_appendix_code_injective(x: BlockAppendix, y: BlockAppendix)
    requires
        appendix_code(x) == appendix_code(y),
        appendix_code(x).len() <= u64::MAX,
    ensures
        claim_views(x.claims@) == claim_views(y.claims@),
{
    let xs = x.claims@;
    let ys = y.claims@;
    assert(x.claims.len() == xs.len() && y.claims.len() == ys.len());
    let whole = appendix_code(x);
    lemma_at_start(whole);
    lemma_at_appendix(whole, 0, x);
    lemma_at_appendix(whole, 0, y);
    lemma_sized_unique(whole, 0, claims_code(xs), claims_code(ys));
    let s = claims_code(xs);
    lemma_at_sized(whole, 0, s);
    lemma_at_start(s);
    let px = claim_parts(xs);
    let py = claim_parts(ys);
    assert forall|i: int, p: int|
        0 <= i < px.len() && 0 <= i < py.len() && #[trigger] at(s, p, px[i]) && at(
            s,
            p,
            py[i],
        ) implies px[i] == py[i] by {
        lemma_sized_unique(s, p, claim_code(xs[i]), claim_code(ys[i]));
    }
    lemma_list_unique(s, 0, px, py);
    assert(px.len() == xs.len() && py.len() == ys.len());
    lemma_at_listed(s, 0, px);
    assert forall|i: int| 0 <= i < xs.len() implies claim_views(xs)[i] == claim_views(ys)[i] by {
        assert(px[i] == py[i]);
        lemma_at_part(s, 1, px, i);
        let p = 1 + concat_all(px.take(i)).len() as int;
        lemma_at_sized(s, p, claim_code(xs[i]));
        lemma_sized_unique(s, p, claim_code(xs[i]), claim_code(ys[i]));
        lemma_claim_code_injective(xs[i], ys[i]);
    }
    assert(claim_views(xs) =~= claim_views(ys));
}

/// A coin is known by its encoding, as the states of the two type scripts differ in length.
#[verifier::spinoff_prover]
#[verifier::rlimit(30)]
proof fn lemma_coin_code_injective(a: Coin, b: Coin, scripts: TypeScriptHashes)
    requires
        coin_code(a, scripts) == coin_code(b, scripts),
    ensures
        a == b,
{
    let s = coin_code(a, scripts);
    let t = coin_code(b, scripts);
    if a is NativeCurrency && b is NativeCurrency {
        assert(amount_code(a->NativeCurrency_0) =~= s.subrange(2, 6));
        assert(amount_code(b->NativeCurrency_0) =~= t.subrange(2, 6));
        lemma_amount_code_injective(a->NativeCurrency_0, b->NativeCurrency_0);
    } else if a is TimeLock && b is TimeLock {
        assert(s[2] == a->TimeLock_0.millis);
        assert(t[2] == b->TimeLock_0.millis);
    } else {
        assert(s.len() != t.len());
    }
}

/// A transaction output is known by its encoding: by whom, and from when on, how much can be spent.
#[verifier::spinoff_prover]
#[verifier::rlimit(30)]
pub proof fn lemma_utxo_code_injective(a: UtxoView, b: UtxoView, scripts: TypeScriptHashes)
    requires
        utxo_code(a, scripts) == utxo_code(b, scripts),
        utxo_code(a, scripts).len() <= u64::MAX,
        a.coins.len() <= u64::MAX,
        b.coins.len() <= u64::MAX,
    ensures
        a.lock_script_hash == b.lock_script_hash,
        a.coins == b.coins,
{
    let s = utxo_code(a, scripts);
    let xs = a.coins.map_values(|c: Coin| sized(coin_code(c, scripts)));
    let ys = b.coins.map_values(|c: Coin| sized(coin_code(c, scripts)));
    let l = listed(xs);
    lemma_at_start(s);
    lemma_at_concat(s, 0, sized(l), a.lock_script_hash.values());
    lemma_at_concat(s, 0, sized(listed(ys)), b.lock_script_hash.values());
    lemma_sized_unique(s, 0, l, listed(ys));
    assert(a.lock_script_hash.values() =~= s.skip(s.len() - 5));
    assert(b.lock_script_hash.values() =~= s.skip(s.len() - 5));
    lemma_digest_values_injective(a.lock_script_hash, b.lock_script_hash);
    lemma_at_start(l);
    assert(l.len() <= s.len());
    assert forall|i: int, p: int|
        0 <= i < xs.len() && 0 <= i < ys.len() && #[trigger] at(l, p, xs[i]) && at(
            l,
            p,
            ys[i],
        ) implies xs[i] == ys[i] by {
        lemma_sized_unique(
            l,
            p,
            coin_code(a.coins[i], scripts),
            coin_code(b.coins[i], scripts),
        );
    }
    lemma_list_unique(l, 0, xs, ys);
    assert(a.coins.len() == xs.len() && b.coins.len() == ys.len());
    assert forall|i: int| 0 <= i < a.coins.len() implies a.coins[i] == b.coins[i] by {
        let x = coin_code(a.coins[i], scripts);
        let y = coin_code(b.coins[i], scripts);
        assert(xs[i] == sized(x) && ys[i] == sized(y));
        lemma_without_size(x);
        lemma_without_size(y);
        lemma_coin_code_injective(a.coins[i], b.coins[i], scripts);
    }
    assert(a.coins =~= b.coins);
}

} // verus!
