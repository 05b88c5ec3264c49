//! Lists, which are preceded by their number of items.

use vstd::prelude::*;

use crate::block::claim_views;
use crate::block::codec::additions_code;
use crate::block::codec::announcement_code;
use crate::block::codec::announcements_code;
use crate::block::codec::claim_code;
use crate::block::codec::concat_all;
use crate::block::codec::digests_code;
use crate::block::codec::lemma_concat_push;
use crate::block::codec::listed;
use crate::block::codec::removal_code;
use crate::block::codec::removals_code;
use crate::block::codec::sized;
use crate::block::codec::u128_code;
use crate::block::decode::elements::at;
use crate::block::decode::elements::lemma_at_concat;
use crate::block::decode::elements::lemma_at_elements;
use crate::block::decode::elements::read_digest;
use crate::block::decode::elements::read_u128;
use crate::block::decode::elements::Read;
use crate::block::decode::records::read_addition;
use crate::block::decode::records::read_announcement;
use crate::block::decode::records::read_claim;
use crate::block::decode::records::read_removal;
use crate::block::Claim;
use crate::digest::Digest;
use crate::transaction::messages;
use crate::transaction::removal_views;
use crate::transaction::AdditionRecord;
use crate::transaction::PublicAnnouncement;
use crate::transaction::RemovalRecord;

verus! {

/// One of several codes that lie at some position, one after the other.
pub proof fn lemma_at_part(s: Seq<u64>, pos: int, parts: Seq<Seq<u64>>, i: int)
    requires
        at(s, pos, concat_all(parts)),
        0 <= i < parts.len(),
    ensures
        at(s, pos + concat_all(parts.take(i)).len(), parts[i]),
    decreases parts.len(),
{
    let others = parts.drop_last();
    lemma_at_concat(s, pos, concat_all(others), parts.last());
    if i == parts.len() - 1 {
        assert(parts.take(i) =~= others);
    } else {
        lemma_at_part(s, pos, others, i);
        assert(others.take(i) =~= parts.take(i));
    }
}

/// A list lies at some position if its number of items lies there, and the items behind it.
pub proof fn lemma_at_listed(s: Seq<u64>, pos: int, parts: Seq<Seq<u64>>)
    requires
        parts.len() <= u64::MAX,
    ensures
        at(s, pos, listed(parts)) <==> 0 <= pos < s.len() && s[pos] == parts.len() && at(
            s,
            pos + 1,
            concat_all(parts),
        ),
        listed(parts).len() == concat_all(parts).len() + 1,
{
    let len = seq![parts.len() as u64];
    lemma_at_concat(s, pos, len, concat_all(parts));
    lemma_at_elements(s, pos, len);
    assert(len[0] == parts.len() as u64);
}

pub open spec fn digest_part(d: Digest) -> Seq<u64> {
    d.values()
}

pub open spec fn addition_part(r: AdditionRecord) -> Seq<u64> {
    r.canonical_commitment.values()
}

pub open spec fn removal_part(r: RemovalRecord) -> Seq<u64> {
    sized(removal_code(r))
}

pub open spec fn announcement_part(a: PublicAnnouncement) -> Seq<u64> {
    sized(announcement_code(a))
}

pub open spec fn claim_part(c: Claim) -> Seq<u64> {
    sized(claim_code(c))
}

pub open spec fn digest_parts(xs: Seq<Digest>) -> Seq<Seq<u64>> {
    xs.map_values(|d: Digest| d.values())
}

pub open spec fn index_parts(xs: Seq<u128>) -> Seq<Seq<u64>> {
    xs.map_values(|x: u128| u128_code(x))
}

pub open spec fn addition_parts(xs: Seq<AdditionRecord>) -> Seq<Seq<u64>> {
    xs.map_values(|r: AdditionRecord| r.canonical_commitment.values())
}

pub open spec fn removal_parts(xs: Seq<RemovalRecord>) -> Seq<Seq<u64>> {
    xs.map_values(|r: RemovalRecord| sized(removal_code(r)))
}

pub open spec fn announcement_parts(xs: Seq<PublicAnnouncement>) -> Seq<Seq<u64>> {
    xs.map_values(|a: PublicAnnouncement| sized(announcement_code(a)))
}

pub open spec fn claim_parts(xs: Seq<Claim>) -> Seq<Seq<u64>> {
    xs.map_values(|c: Claim| sized(claim_code(c)))
}

/// A list of numbers of four limbs as a sequence of elements.
pub open spec fn indices_code(xs: Seq<u128>) -> Seq<u64> {
    listed(index_parts(xs))
}

/// A list of claims as a sequence of elements.
pub open spec fn claims_code(xs: Seq<Claim>) -> Seq<u64> {
    listed(claim_parts(xs))
}

/// A list of digests.
pub fn read_digests(s: &Vec<u64>, pos: usize) -> (r: Option<Read<Vec<Digest>>>)
    requires
        pos <= s@.len(),
    ensures
        match r {
            Some(read) => {
                &&& at(s@, pos as int, digests_code(read.value@))
                &&& read.end == pos + digests_code(read.value@).len()
            },
            None => true,
        },
        forall|xs: Vec<Digest>| #[trigger]
            at(s@, pos as int, digests_code(xs@)) ==> {
                &&& r is Some
                &&& r->Some_0.value@ == xs@
                &&& r->Some_0.end == pos + digests_code(xs@).len()
            },
{
    let total: usize = s.len();
    proof {
        assert forall|xs: Vec<Digest>| #[trigger]
            at(s@, pos as int, digests_code(xs@)) implies {
            &&& pos < s@.len()
            &&& s@[pos as int] == xs@.len()
            &&& at(s@, pos + 1, concat_all(digest_parts(xs@)))
        } by {
            assert(xs.len() == xs@.len());
            lemma_at_listed(s@, pos as int, digest_parts(xs@));
        }
    }
    if pos >= s.len() {
        return None;
    }
    let count: u64 = s[pos];
    let mut items: Vec<Digest> = Vec::new();
    let mut cur: usize = pos + 1;
    let mut i: u64 = 0;
    proof {
        assert(digest_parts(items@) =~= Seq::<Seq<u64>>::empty());
        assert(s@.subrange(pos + 1, pos + 1) =~= Seq::<u64>::empty());
    }
    while i < count
        invariant
            i <= count,
            pos < s@.len() == total,
            cur <= s@.len(),
            count == s@[pos as int],
            items@.len() == i,
            at(s@, pos + 1, concat_all(digest_parts(items@))),
            cur == pos + 1 + concat_all(digest_parts(items@)).len(),
            forall|xs: Vec<Digest>| #[trigger]
                at(s@, pos as int, digests_code(xs@)) ==> {
                    &&& xs@.len() == count
                    &&& at(s@, pos + 1, concat_all(digest_parts(xs@)))
                    &&& forall|j: int|
                        0 <= j < i ==> items@[j] == #[trigger] xs@[j]
                    &&& cur == pos + 1 + concat_all(digest_parts(xs@).take(i as int)).len()
                },
        decreases count - i,
    {
        proof {
            assert forall|xs: Vec<Digest>| #[trigger]
                at(s@, pos as int, digests_code(xs@)) implies {
                let part = digest_part(xs@[i as int]);
                &&& at(s@, cur as int, part)
                &&& concat_all(digest_parts(xs@).take(i + 1)).len() == cur - pos - 1 + part.len()
            } by {
                let parts = digest_parts(xs@);
                lemma_at_part(s@, pos + 1, parts, i as int);
                assert(parts.take(i + 1) =~= parts.take(i as int).push(parts[i as int]));
                lemma_concat_push(parts.take(i as int), parts[i as int]);
            }
        }
        let read: Read<Digest> = match read_digest(s, cur) {
            Some(read) => read,
            None => {
                return None;
            },
        };
        let ghost old_items = items@;
        items.push(read.value);
        proof {
            let part = digest_part(items@[i as int]);
            assert(digest_parts(items@) =~= digest_parts(old_items).push(part));
            lemma_concat_push(digest_parts(old_items), part);
            lemma_at_concat(s@, pos + 1, concat_all(digest_parts(old_items)), part);
        }
        cur = read.end;
        i = i + 1;
    }
    proof {
        lemma_at_listed(s@, pos as int, digest_parts(items@));
        assert forall|xs: Vec<Digest>| #[trigger]
            at(s@, pos as int, digests_code(xs@)) implies {
            &&& items@ == xs@
            &&& cur == pos + digests_code(xs@).len()
        } by {
            assert(items@ =~= xs@);
            assert(digest_parts(xs@).take(i as int) =~= digest_parts(xs@));
        }
    }
    Some(Read { value: items, end: cur })
}

/// A list of numbers of four limbs.
pub fn read_indices(s: &Vec<u64>, pos: usize) -> (r: Option<Read<Vec<u128>>>)
    requires
        pos <= s@.len(),
    ensures
        match r {
            Some(read) => {
                &&& at(s@, pos as int, indices_code(read.value@))
                &&& read.end == pos + indices_code(read.value@).len()
            },
            None => true,
        },
        forall|xs: Vec<u128>| #[trigger]
            at(s@, pos as int, indices_code(xs@)) ==> {
                &&& r is Some
                &&& r->Some_0.value@ == xs@
                &&& r->Some_0.end == pos + indices_code(xs@).len()
            },
{
    let total: usize = s.len();
    proof {
        assert forall|xs: Vec<u128>| #[trigger]
            at(s@, pos as int, indices_code(xs@)) implies {
            &&& pos < s@.len()
            &&& s@[pos as int] == xs@.len()
            &&& at(s@, pos + 1, concat_all(index_parts(xs@)))
        } by {
            assert(xs.len() == xs@.len());
            lemma_at_listed(s@, pos as int, index_parts(xs@));
        }
    }
    if pos >= s.len() {
        return None;
    }
    let count: u64 = s[pos];
    let mut items: Vec<u128> = Vec::new();
    let mut cur: usize = pos + 1;
    let mut i: u64 = 0;
    proof {
        assert(index_parts(items@) =~= Seq::<Seq<u64>>::empty());
        assert(s@.subrange(pos + 1, pos + 1) =~= Seq::<u64>::empty());
    }
    while i < count
        invariant
            i <= count,
            pos < s@.len() == total,
            cur <= s@.len(),
            count == s@[pos as int],
            items@.len() == i,
            at(s@, pos + 1, concat_all(index_parts(items@))),
            cur == pos + 1 + concat_all(index_parts(items@)).len(),
            forall|xs: Vec<u128>| #[trigger]
                at(s@, pos as int, indices_code(xs@)) ==> {
                    &&& xs@.len() == count
                    &&& at(s@, pos + 1, concat_all(index_parts(xs@)))
                    &&& forall|j: int|
                        0 <= j < i ==> items@[j] == #[trigger] xs@[j]
                    &&& cur == pos + 1 + concat_all(index_parts(xs@).take(i as int)).len()
                },
        decreases count - i,
    {
        proof {
            assert forall|xs: Vec<u128>| #[trigger]
                at(s@, pos as int, indices_code(xs@)) implies {
                let part = u128_code(xs@[i as int]);
                &&& at(s@, cur as int, part)
                &&& concat_all(index_parts(xs@).take(i + 1)).len() == cur - pos - 1 + part.len()
            } by {
                let parts = index_parts(xs@);
                lemma_at_part(s@, pos + 1, parts, i as int);
                assert(parts.take(i + 1) =~= parts.take(i as int).push(parts[i as int]));
                lemma_concat_push(parts.take(i as int), parts[i as int]);
            }
        }
        let read: Read<u128> = match read_u128(s, cur) {
            Some(read) => read,
            None => {
                return None;
            },
        };
        let ghost old_items = items@;
        items.push(read.value);
        proof {
            let part = u128_code(items@[i as int]);
            assert(index_parts(items@) =~= index_parts(old_items).push(part));
            lemma_concat_push(index_parts(old_items), part);
            lemma_at_concat(s@, pos + 1, concat_all(index_parts(old_items)), part);
        }
        cur = read.end;
        i = i + 1;
    }
    proof {
        lemma_at_listed(s@, pos as int, index_parts(items@));
        assert forall|xs: Vec<u128>| #[trigger]
            at(s@, pos as int, indices_code(xs@)) implies {
            &&& items@ == xs@
            &&& cur == pos + indices_code(xs@).len()
        } by {
            assert(items@ =~= xs@);
            assert(index_parts(xs@).take(i as int) =~= index_parts(xs@));
        }
    }
    Some(Read { value: items, end: cur })
}

/// A list of addition records.
pub fn read_additions(s: &Vec<u64>, pos: usize) -> (r: Option<Read<Vec<AdditionRecord>>>)
    requires
        pos <= s@.len(),
    ensures
        match r {
            Some(read) => {
                &&& at(s@, pos as int, additions_code(read.value@))
                &&& read.end == pos + additions_code(read.value@).len()
            },
            None => true,
        },
        forall|xs: Vec<AdditionRecord>| #[trigger]
            at(s@, pos as int, additions_code(xs@)) ==> {
                &&& r is Some
                &&& r->Some_0.value@ == xs@
                &&& r->Some_0.end == pos + additions_code(xs@).len()
            },
{
    let total: usize = s.len();
    proof {
        assert forall|xs: Vec<AdditionRecord>| #[trigger]
            at(s@, pos as int, additions_code(xs@)) implies {
            &&& pos < s@.len()
            &&& s@[pos as int] == xs@.len()
            &&& at(s@, pos + 1, concat_all(addition_parts(xs@)))
        } by {
            assert(xs.len() == xs@.len());
            lemma_at_listed(s@, pos as int, addition_parts(xs@));
        }
    }
    if pos >= s.len() {
        return None;
    }
    let count: u64 = s[pos];
    let mut items: Vec<AdditionRecord> = Vec::new();
    let mut cur: usize = pos + 1;
    let mut i: u64 = 0;
    proof {
        assert(addition_parts(items@) =~= Seq::<Seq<u64>>::empty());
        assert(s@.subrange(pos + 1, pos + 1) =~= Seq::<u64>::empty());
    }
    while i < count
        invariant
            i <= count,
            pos < s@.len() == total,
            cur <= s@.len(),
            count == s@[pos as int],
            items@.len() == i,
            at(s@, pos + 1, concat_all(addition_parts(items@))),
            cur == pos + 1 + concat_all(addition_parts(items@)).len(),
            forall|xs: Vec<AdditionRecord>| #[trigger]
                at(s@, pos as int, additions_code(xs@)) ==> {
                    &&& xs@.len() == count
                    &&& at(s@, pos + 1, concat_all(addition_parts(xs@)))
                    &&& forall|j: int|
                        0 <= j < i ==> items@[j] == #[trigger] xs@[j]
                    &&& cur == pos + 1 + concat_all(addition_parts(xs@).take(i as int)).len()
                },
        decreases count - i,
    {
        proof {
            assert forall|xs: Vec<AdditionRecord>| #[trigger]
                at(s@, pos as int, additions_code(xs@)) implies {
                let part = addition_part(xs@[i as int]);
                &&& at(s@, cur as int, part)
                &&& concat_all(addition_parts(xs@).take(i + 1)).len() == cur - pos - 1 + part.len()
            } by {
                let parts = addition_parts(xs@);
                lemma_at_part(s@, pos + 1, parts, i as int);
                assert(parts.take(i + 1) =~= parts.take(i as int).push(parts[i as int]));
                lemma_concat_push(parts.take(i as int), parts[i as int]);
            }
        }
        let read: Read<AdditionRecord> = match read_addition(s, cur) {
            Some(read) => read,
            None => {
                return None;
            },
        };
        let ghost old_items = items@;
        items.push(read.value);
        proof {
            let part = addition_part(items@[i as int]);
            assert(addition_parts(items@) =~= addition_parts(old_items).push(part));
            lemma_concat_push(addition_parts(old_items), part);
            lemma_at_concat(s@, pos + 1, concat_all(addition_parts(old_items)), part);
        }
        cur = read.end;
        i = i + 1;
    }
    proof {
        lemma_at_listed(s@, pos as int, addition_parts(items@));
        assert forall|xs: Vec<AdditionRecord>| #[trigger]
            at(s@, pos as int, additions_code(xs@)) implies {
            &&& items@ == xs@
            &&& cur == pos + additions_code(xs@).len()
        } by {
            assert(items@ =~= xs@);
            assert(addition_parts(xs@).take(i as int) =~= addition_parts(xs@));
        }
    }
    Some(Read { value: items, end: cur })
}

/// A list of removal records.
pub fn read_removals(s: &Vec<u64>, pos: usize) -> (r: Option<Read<Vec<RemovalRecord>>>)
    requires
        pos <= s@.len(),
    ensures
        match r {
            Some(read) => {
                &&& at(s@, pos as int, removals_code(read.value@))
                &&& read.end == pos + removals_code(read.value@).len()
            },
            None => true,
        },
        forall|xs: Vec<RemovalRecord>| #[trigger]
            at(s@, pos as int, removals_code(xs@)) ==> {
                &&& r is Some
                &&& removal_views(r->Some_0.value@) == removal_views(xs@)
                &&& r->Some_0.end == pos + removals_code(xs@).len()
            },
{
    let total: usize = s.len();
    proof {
        assert forall|xs: Vec<RemovalRecord>| #[trigger]
            at(s@, pos as int, removals_code(xs@)) implies {
            &&& pos < s@.len()
            &&& s@[pos as int] == xs@.len()
            &&& at(s@, pos + 1, concat_all(removal_parts(xs@)))
        } by {
            assert(xs.len() == xs@.len());
            lemma_at_listed(s@, pos as int, removal_parts(xs@));
        }
    }
    if pos >= s.len() {
        return None;
    }
    let count: u64 = s[pos];
    let mut items: Vec<RemovalRecord> = Vec::new();
    let mut cur: usize = pos + 1;
    let mut i: u64 = 0;
    proof {
        assert(removal_parts(items@) =~= Seq::<Seq<u64>>::empty());
        assert(s@.subrange(pos + 1, pos + 1) =~= Seq::<u64>::empty());
    }
    while i < count
        invariant
            i <= count,
            pos < s@.len() == total,
            cur <= s@.len(),
            count == s@[pos as int],
            items@.len() == i,
            at(s@, pos + 1, concat_all(removal_parts(items@))),
            cur == pos + 1 + concat_all(removal_parts(items@)).len(),
            forall|xs: Vec<RemovalRecord>| #[trigger]
                at(s@, pos as int, removals_code(xs@)) ==> {
                    &&& xs@.len() == count
                    &&& at(s@, pos + 1, concat_all(removal_parts(xs@)))
                    &&& forall|j: int|
                        0 <= j < i ==> items@[j]@ == (#[trigger] xs@[j])@
                    &&& cur == pos + 1 + concat_all(removal_parts(xs@).take(i as int)).len()
                },
        decreases count - i,
    {
        proof {
            assert forall|xs: Vec<RemovalRecord>| #[trigger]
                at(s@, pos as int, removals_code(xs@)) implies {
                let part = removal_part(xs@[i as int]);
                &&& at(s@, cur as int, part)
                &&& concat_all(removal_parts(xs@).take(i + 1)).len() == cur - pos - 1 + part.len()
            } by {
                let parts = removal_parts(xs@);
                lemma_at_part(s@, pos + 1, parts, i as int);
                assert(parts.take(i + 1) =~= parts.take(i as int).push(parts[i as int]));
                lemma_concat_push(parts.take(i as int), parts[i as int]);
            }
        }
        let read: Read<RemovalRecord> = match read_removal(s, cur) {
            Some(read) => read,
            None => {
                return None;
            },
        };
        let ghost old_items = items@;
        items.push(read.value);
        proof {
            let part = removal_part(items@[i as int]);
            assert(removal_parts(items@) =~= removal_parts(old_items).push(part));
            lemma_concat_push(removal_parts(old_items), part);
            lemma_at_concat(s@, pos + 1, concat_all(removal_parts(old_items)), part);
        }
        cur = read.end;
        i = i + 1;
    }
    proof {
        lemma_at_listed(s@, pos as int, removal_parts(items@));
        assert forall|xs: Vec<RemovalRecord>| #[trigger]
            at(s@, pos as int, removals_code(xs@)) implies {
            &&& removal_views(items@) == removal_views(xs@)
            &&& cur == pos + removals_code(xs@).len()
        } by {
            assert(removal_views(items@) =~= removal_views(xs@));
            assert(removal_parts(xs@).take(i as int) =~= removal_parts(xs@));
        }
    }
    Some(Read { value: items, end: cur })
}

/// A list of public announcements.
pub fn read_announcements(s: &Vec<u64>, pos: usize) -> (r: Option<Read<Vec<PublicAnnouncement>>>)
    requires
        pos <= s@.len(),
    ensures
        match r {
            Some(read) => {
                &&& at(s@, pos as int, announcements_code(read.value@))
                &&& read.end == pos + announcements_code(read.value@).len()
            },
            None => true,
        },
        forall|xs: Vec<PublicAnnouncement>| #[trigger]
            at(s@, pos as int, announcements_code(xs@)) ==> {
                &&& r is Some
                &&& messages(r->Some_0.value@) == messages(xs@)
                &&& r->Some_0.end == pos + announcements_code(xs@).len()
            },
{
    let total: usize = s.len();
    proof {
        assert forall|xs: Vec<PublicAnnouncement>| #[trigger]
            at(s@, pos as int, announcements_code(xs@)) implies {
            &&& pos < s@.len()
            &&& s@[pos as int] == xs@.len()
            &&& at(s@, pos + 1, concat_all(announcement_parts(xs@)))
        } by {
            assert(xs.len() == xs@.len());
            lemma_at_listed(s@, pos as int, announcement_parts(xs@));
        }
    }
    if pos >= s.len() {
        return None;
    }
    let count: u64 = s[pos];
    let mut items: Vec<PublicAnnouncement> = Vec::new();
    let mut cur: usize = pos + 1;
    let mut i: u64 = 0;
    proof {
        assert(announcement_parts(items@) =~= Seq::<Seq<u64>>::empty());
        assert(s@.subrange(pos + 1, pos + 1) =~= Seq::<u64>::empty());
    }
    while i < count
        invariant
            i <= count,
            pos < s@.len() == total,
            cur <= s@.len(),
            count == s@[pos as int],
            items@.len() == i,
            at(s@, pos + 1, concat_all(announcement_parts(items@))),
            cur == pos + 1 + concat_all(announcement_parts(items@)).len(),
            forall|xs: Vec<PublicAnnouncement>| #[trigger]
                at(s@, pos as int, announcements_code(xs@)) ==> {
                    &&& xs@.len() == count
                    &&& at(s@, pos + 1, concat_all(announcement_parts(xs@)))
                    &&& forall|j: int|
                        0 <= j < i ==> items@[j].message@ == (#[trigger] xs@[j]).message@
                    &&& cur == pos + 1 + concat_all(announcement_parts(xs@).take(i as int)).len()
                },
        decreases count - i,
    {
        proof {
            assert forall|xs: Vec<PublicAnnouncement>| #[trigger]
                at(s@, pos as int, announcements_code(xs@)) implies {
                let part = announcement_part(xs@[i as int]);
                &&& at(s@, cur as int, part)
                &&& concat_all(announcement_parts(xs@).take(i + 1)).len() == cur - pos - 1
                    + part.len()
            } by {
                let parts = announcement_parts(xs@);
                lemma_at_part(s@, pos + 1, parts, i as int);
                assert(parts.take(i + 1) =~= parts.take(i as int).push(parts[i as int]));
                lemma_concat_push(parts.take(i as int), parts[i as int]);
            }
        }
        let read: Read<PublicAnnouncement> = match read_announcement(s, cur) {
            Some(read) => read,
            None => {
                return None;
            },
        };
        let ghost old_items = items@;
        items.push(read.value);
        proof {
            let part = announcement_part(items@[i as int]);
            assert(announcement_parts(items@) =~= announcement_parts(old_items).push(part));
            lemma_concat_push(announcement_parts(old_items), part);
            lemma_at_concat(s@, pos + 1, concat_all(announcement_parts(old_items)), part);
        }
        cur = read.end;
        i = i + 1;
    }
    proof {
        lemma_at_listed(s@, pos as int, announcement_parts(items@));
        assert forall|xs: Vec<PublicAnnouncement>| #[trigger]
            at(s@, pos as int, announcements_code(xs@)) implies {
            &&& messages(items@) == messages(xs@)
            &&& cur == pos + announcements_code(xs@).len()
        } by {
            assert(messages(items@) =~= messages(xs@));
            assert(announcement_parts(xs@).take(i as int) =~= announcement_parts(xs@));
        }
    }
    Some(Read { value: items, end: cur })
}

/// A list of claims.
pub fn read_claims(s: &Vec<u64>, pos: usize) -> (r: Option<Read<Vec<Claim>>>)
    requires
        pos <= s@.len(),
    ensures
        match r {
            Some(read) => {
                &&& at(s@, pos as int, claims_code(read.value@))
                &&& read.end == pos + claims_code(read.value@).len()
            },
            None => true,
        },
        forall|xs: Vec<Claim>| #[trigger]
            at(s@, pos as int, claims_code(xs@)) ==> {
                &&& r is Some
                &&& claim_views(r->Some_0.value@) == claim_views(xs@)
                &&& r->Some_0.end == pos + claims_code(xs@).len()
            },
{
    let total: usize = s.len();
    proof {
        assert forall|xs: Vec<Claim>| #[trigger]
            at(s@, pos as int, claims_code(xs@)) implies {
            &&& pos < s@.len()
            &&& s@[pos as int] == xs@.len()
            &&& at(s@, pos + 1, concat_all(claim_parts(xs@)))
        } by {
            assert(xs.len() == xs@.len());
            lemma_at_listed(s@, pos as int, claim_parts(xs@));
        }
    }
    if pos >= s.len() {
        return None;
    }
    let count: u64 = s[pos];
    let mut items: Vec<Claim> = Vec::new();
    let mut cur: usize = pos + 1;
    let mut i: u64 = 0;
    proof {
        assert(claim_parts(items@) =~= Seq::<Seq<u64>>::empty());
        assert(s@.subrange(pos + 1, pos + 1) =~= Seq::<u64>::empty());
    }
    while i < count
        invariant
            i <= count,
            pos < s@.len() == total,
            cur <= s@.len(),
            count == s@[pos as int],
            items@.len() == i,
            at(s@, pos + 1, concat_all(claim_parts(items@))),
            cur == pos + 1 + concat_all(claim_parts(items@)).len(),
            forall|xs: Vec<Claim>| #[trigger]
                at(s@, pos as int, claims_code(xs@)) ==> {
                    &&& xs@.len() == count
                    &&& at(s@, pos + 1, concat_all(claim_parts(xs@)))
                    &&& forall|j: int|
                        0 <= j < i ==> items@[j]@ == (#[trigger] xs@[j])@
                    &&& cur == pos + 1 + concat_all(claim_parts(xs@).take(i as int)).len()
                },
        decreases count - i,
    {
        proof {
            assert forall|xs: Vec<Claim>| #[trigger]
                at(s@, pos as int, claims_code(xs@)) implies {
                let part = claim_part(xs@[i as int]);
                &&& at(s@, cur as int, part)
                &&& concat_all(claim_parts(xs@).take(i + 1)).len() == cur - pos - 1 + part.len()
            } by {
                let parts = claim_parts(xs@);
                lemma_at_part(s@, pos + 1, parts, i as int);
                assert(parts.take(i + 1) =~= parts.take(i as int).push(parts[i as int]));
                lemma_concat_push(parts.take(i as int), parts[i as int]);
            }
        }
        let read: Read<Claim> = match read_claim(s, cur) {
            Some(read) => read,
            None => {
                return None;
            },
        };
        let ghost old_items = items@;
        items.push(read.value);
        proof {
            let part = claim_part(items@[i as int]);
            assert(claim_parts(items@) =~= claim_parts(old_items).push(part));
            lemma_concat_push(claim_parts(old_items), part);
            lemma_at_concat(s@, pos + 1, concat_all(claim_parts(old_items)), part);
        }
        cur = read.end;
        i = i + 1;
    }
    proof {
        lemma_at_listed(s@, pos as int, claim_parts(items@));
        assert forall|xs: Vec<Claim>| #[trigger]
            at(s@, pos as int, claims_code(xs@)) implies {
            &&& claim_views(items@) == claim_views(xs@)
            &&& cur == pos + claims_code(xs@).len()
        } by {
            assert(claim_views(items@) =~= claim_views(xs@));
            assert(claim_parts(xs@).take(i as int) =~= claim_parts(xs@));
        }
    }
    Some(Read { value: items, end: cur })
}

} // verus!
