//! Parts of a fixed number of elements, or of elements that are not interpreted.

use vstd::prelude::*;

use crate::amount::NativeCurrencyAmount;
use crate::block::codec::amount_code;
use crate::block::codec::bool_code;
use crate::block::codec::coinbase_code;
use crate::block::codec::difficulty_code;
use crate::block::codec::proof_of_work_code;
use crate::block::codec::sized;
use crate::block::codec::u128_code;
use crate::block::codec::u64_code;
use crate::difficulty::Difficulty;
use crate::difficulty::ProofOfWork;
use crate::difficulty::U192;
use crate::digest::Digest;

verus! {

/// What was read, and the position after it.
pub struct Read<T> {
    pub value: T,
    pub end: usize,
}

/// A code lies at some position of a sequence.
pub open spec fn at(s: Seq<u64>, pos: int, code: Seq<u64>) -> bool {
    &&& 0 <= pos
    &&& pos + code.len() <= s.len()
    &&& s.subrange(pos, pos + code.len() as int) == code
}

/// Two codes lie at some position, one after the other, if the first one lies there, and the
/// second one where the first one ends.
pub proof fn lemma_at_concat(s: Seq<u64>, pos: int, a: Seq<u64>, b: Seq<u64>)
    ensures
        at(s, pos, a + b) <==> at(s, pos, a) && at(s, pos + a.len(), b),
{
    let n = a.len() as int;
    let m = b.len() as int;
    if at(s, pos, a + b) {
        let whole = s.subrange(pos, pos + n + m);
        assert(whole == a + b);
        assert(s.subrange(pos, pos + n) =~= whole.subrange(0, n));
        assert((a + b).subrange(0, n) =~= a);
        assert(s.subrange(pos + n, pos + n + m) =~= whole.subrange(n, n + m));
        assert((a + b).subrange(n, n + m) =~= b);
    }
    if at(s, pos, a) && at(s, pos + n, b) {
        assert(s.subrange(pos, pos + n + m) =~= s.subrange(pos, pos + n) + s.subrange(
            pos + n,
            pos + n + m,
        ));
    }
}

/// A code lies at some position if all its elements lie where they should.
pub proof fn lemma_at_elements(s: Seq<u64>, pos: int, code: Seq<u64>)
    ensures
        at(s, pos, code) <==> 0 <= pos && pos + code.len() <= s.len() && forall|i: int|
            0 <= i < code.len() ==> s[pos + i] == #[trigger] code[i],
{
    if 0 <= pos && pos + code.len() <= s.len() {
        let part = s.subrange(pos, pos + code.len() as int);
        if part == code {
            assert forall|i: int| 0 <= i < code.len() implies s[pos + i] == #[trigger] code[i] by {
                assert(part[i] == code[i]);
            }
        }
        if forall|i: int| 0 <= i < code.len() ==> s[pos + i] == #[trigger] code[i] {
            assert(part =~= code);
        }
    }
}

/// A sequence that is preceded by its length lies at some position if its length lies there, and
/// the sequence behind it.
pub proof fn lemma_at_sized(s: Seq<u64>, pos: int, code: Seq<u64>)
    requires
        s.len() <= u64::MAX,
    ensures
        at(s, pos, sized(code)) <==> 0 <= pos < s.len() && s[pos] == code.len() && at(
            s,
            pos + 1,
            code,
        ),
        at(s, pos, sized(code)) ==> sized(code).len() == code.len() + 1,
{
    let len = seq![code.len() as u64];
    lemma_at_concat(s, pos, len, code);
    lemma_at_elements(s, pos, len);
    assert(len[0] == code.len() as u64);
    assert(sized(code).len() == code.len() + 1);
}

/// One element.
pub fn read_element(s: &Vec<u64>, pos: usize) -> (r: Option<Read<u64>>)
    requires
        pos <= s@.len(),
    ensures
        match r {
            Some(read) => at(s@, pos as int, seq![read.value]) && read.end == pos + 1,
            None => true,
        },
        forall|x: u64| #[trigger]
            at(s@, pos as int, seq![x]) ==> r is Some && r->Some_0.value == x,
{
    proof {
        assert forall|x: u64| #[trigger] at(s@, pos as int, seq![x]) implies pos < s@.len()
            && s@[pos as int] == x by {
            lemma_at_elements(s@, pos as int, seq![x]);
            assert(seq![x][0] == x);
        }
    }
    if pos >= s.len() {
        return None;
    }
    proof {
        lemma_at_elements(s@, pos as int, seq![s@[pos as int]]);
    }
    Some(Read { value: s[pos], end: pos + 1 })
}

/// One element that fits into 32 bits.
pub fn read_u32(s: &Vec<u64>, pos: usize) -> (r: Option<Read<u32>>)
    requires
        pos <= s@.len(),
    ensures
        match r {
            Some(read) => at(s@, pos as int, seq![read.value as u64]) && read.end == pos + 1,
            None => true,
        },
        forall|x: u32| #[trigger]
            at(s@, pos as int, seq![x as u64]) ==> r is Some && r->Some_0.value == x,
{
    match read_element(s, pos) {
        Some(read) => if read.value <= 0xffff_ffff {
            Some(Read { value: read.value as u32, end: read.end })
        } else {
            None
        },
        None => None,
    }
}

/// A digest.
pub fn read_digest(s: &Vec<u64>, pos: usize) -> (r: Option<Read<Digest>>)
    requires
        pos <= s@.len(),
    ensures
        match r {
            Some(read) => at(s@, pos as int, read.value.values()) && read.end == pos + 5,
            None => true,
        },
        forall|x: Digest| #[trigger]
            at(s@, pos as int, x.values()) ==> r is Some && r->Some_0.value == x,
{
    proof {
        assert forall|x: Digest| #[trigger] at(s@, pos as int, x.values()) implies pos + 5
            <= s@.len() && s@[pos as int] == x.e0 && s@[pos + 1] == x.e1 && s@[pos + 2] == x.e2
            && s@[pos + 3] == x.e3 && s@[pos + 4] == x.e4 by {
            lemma_at_elements(s@, pos as int, x.values());
            let v = x.values();
            assert(v[0] == x.e0 && v[1] == x.e1 && v[2] == x.e2 && v[3] == x.e3 && v[4] == x.e4);
        }
    }
    if s.len() - pos < 5 {
        return None;
    }
    let value = Digest {
        e0: s[pos],
        e1: s[pos + 1],
        e2: s[pos + 2],
        e3: s[pos + 3],
        e4: s[pos + 4],
    };
    proof {
        lemma_at_elements(s@, pos as int, value.values());
    }
    Some(Read { value, end: pos + 5 })
}

/// A number of two limbs of 32 bits.
pub fn read_u64(s: &Vec<u64>, pos: usize) -> (r: Option<Read<u64>>)
    requires
        pos <= s@.len(),
    ensures
        match r {
            Some(read) => at(s@, pos as int, u64_code(read.value)) && read.end == pos + 2,
            None => true,
        },
        forall|x: u64| #[trigger]
            at(s@, pos as int, u64_code(x)) ==> r is Some && r->Some_0.value == x,
{
    proof {
        assert forall|x: u64| #[trigger] at(s@, pos as int, u64_code(x)) implies pos + 2
            <= s@.len() && s@[pos as int] == x as int % 0x1_0000_0000 && s@[pos + 1] == x as int
            / 0x1_0000_0000 by {
            lemma_at_elements(s@, pos as int, u64_code(x));
            let v = u64_code(x);
            assert(v[0] == (x as int % 0x1_0000_0000) as u64 && v[1] == (x as int
                / 0x1_0000_0000) as u64);
        }
    }
    if s.len() - pos < 2 {
        return None;
    }
    let low: u64 = s[pos];
    let high: u64 = s[pos + 1];
    if low > 0xffff_ffff || high > 0xffff_ffff {
        return None;
    }
    let value: u64 = low + high * 0x1_0000_0000;
    proof {
        lemma_at_elements(s@, pos as int, u64_code(value));
    }
    Some(Read { value, end: pos + 2 })
}

/// A number is the sum of its limbs of 32 bits, each shifted to its place.
pub proof fn lemma_sum_of_limbs(x: int)
    requires
        0 <= x,
    ensures
        x == x % 0x1_0000_0000 + (x / 0x1_0000_0000 % 0x1_0000_0000) * 0x1_0000_0000 + (x
            / 0x1_0000_0000_0000_0000 % 0x1_0000_0000) * 0x1_0000_0000_0000_0000 + (x
            / 0x1_0000_0000_0000_0000_0000_0000) * 0x1_0000_0000_0000_0000_0000_0000,
{
    let b: int = 0x1_0000_0000;
    let q1 = x / b;
    let q2 = q1 / b;
    let q3 = q2 / b;
    vstd::arithmetic::div_mod::lemma_div_denominator(x, b, b);
    vstd::arithmetic::div_mod::lemma_div_denominator(x, 0x1_0000_0000_0000_0000, b);
    vstd::arithmetic::div_mod::lemma_fundamental_div_mod(x, b);
    vstd::arithmetic::div_mod::lemma_fundamental_div_mod(q1, b);
    vstd::arithmetic::div_mod::lemma_fundamental_div_mod(q2, b);
    assert(q2 == x / 0x1_0000_0000_0000_0000);
    assert(q3 == x / 0x1_0000_0000_0000_0000_0000_0000);
}

/// The limbs of 32 bits of a sum of shifted limbs are those limbs.
proof fn lemma_limbs_of_sum(x: int, l0: int, l1: int, l2: int, l3: int)
    requires
        0 <= l0 < 0x1_0000_0000,
        0 <= l1 < 0x1_0000_0000,
        0 <= l2 < 0x1_0000_0000,
        0 <= l3,
        x == l0 + l1 * 0x1_0000_0000 + l2 * 0x1_0000_0000_0000_0000 + l3
            * 0x1_0000_0000_0000_0000_0000_0000,
    ensures
        x % 0x1_0000_0000 == l0,
        x / 0x1_0000_0000 % 0x1_0000_0000 == l1,
        x / 0x1_0000_0000_0000_0000 % 0x1_0000_0000 == l2,
        x / 0x1_0000_0000_0000_0000_0000_0000 == l3,
{
    let b: int = 0x1_0000_0000;
    let q1 = l1 + l2 * b + l3 * 0x1_0000_0000_0000_0000;
    let q2 = l2 + l3 * b;
    vstd::arithmetic::div_mod::lemma_fundamental_div_mod_converse(x, b, q1, l0);
    vstd::arithmetic::div_mod::lemma_fundamental_div_mod_converse(q1, b, q2, l1);
    vstd::arithmetic::div_mod::lemma_fundamental_div_mod_converse(q2, b, l3, l2);
    vstd::arithmetic::div_mod::lemma_div_denominator(x, b, b);
    vstd::arithmetic::div_mod::lemma_div_denominator(x, 0x1_0000_0000_0000_0000, b);
}

/// What the elements of an encoded number of four limbs are.
pub proof fn lemma_u128_code_at(s: Seq<u64>, pos: int, x: u128)
    ensures
        at(s, pos, u128_code(x)) <==> 0 <= pos && pos + 4 <= s.len() && s[pos] == x as int
            % 0x1_0000_0000 && s[pos + 1] == x as int / 0x1_0000_0000 % 0x1_0000_0000 && s[pos + 2]
            == x as int / 0x1_0000_0000_0000_0000 % 0x1_0000_0000 && s[pos + 3] == x as int
            / 0x1_0000_0000_0000_0000_0000_0000,
{
    lemma_at_elements(s, pos, u128_code(x));
    let v = u128_code(x);
    assert(v[0] == (x as int % 0x1_0000_0000) as u64);
    assert(v[1] == (x as int / 0x1_0000_0000 % 0x1_0000_0000) as u64);
    assert(v[2] == (x as int / 0x1_0000_0000_0000_0000 % 0x1_0000_0000) as u64);
    assert(v[3] == (x as int / 0x1_0000_0000_0000_0000_0000_0000) as u64);
}

/// A number of four limbs of 32 bits.
pub fn read_u128(s: &Vec<u64>, pos: usize) -> (r: Option<Read<u128>>)
    requires
        pos <= s@.len(),
    ensures
        match r {
            Some(read) => at(s@, pos as int, u128_code(read.value)) && read.end == pos + 4,
            None => true,
        },
        forall|x: u128| #[trigger]
            at(s@, pos as int, u128_code(x)) ==> r is Some && r->Some_0.value == x,
{
    proof {
        assert forall|x: u128| #[trigger] at(s@, pos as int, u128_code(x)) implies pos + 4
            <= s@.len() && s@[pos as int] <= 0xffff_ffff && s@[pos + 1] <= 0xffff_ffff && s@[pos
            + 2] <= 0xffff_ffff && s@[pos + 3] <= 0xffff_ffff && x == s@[pos as int] + s@[pos + 1]
            * 0x1_0000_0000 + s@[pos + 2] * 0x1_0000_0000_0000_0000 + s@[pos + 3]
            * 0x1_0000_0000_0000_0000_0000_0000 by {
            lemma_u128_code_at(s@, pos as int, x);
            lemma_sum_of_limbs(x as int);
        }
    }
    if s.len() - pos < 4 {
        return None;
    }
    let l0: u64 = s[pos];
    let l1: u64 = s[pos + 1];
    let l2: u64 = s[pos + 2];
    let l3: u64 = s[pos + 3];
    if l0 > 0xffff_ffff || l1 > 0xffff_ffff || l2 > 0xffff_ffff || l3 > 0xffff_ffff {
        return None;
    }
    let value: u128 = l0 as u128 + l1 as u128 * 0x1_0000_0000 + l2 as u128
        * 0x1_0000_0000_0000_0000 + l3 as u128 * 0x1_0000_0000_0000_0000_0000_0000;
    proof {
        lemma_limbs_of_sum(value as int, l0 as int, l1 as int, l2 as int, l3 as int);
        lemma_u128_code_at(s@, pos as int, value);
    }
    Some(Read { value, end: pos + 4 })
}

/// A truth value.
pub fn read_bool(s: &Vec<u64>, pos: usize) -> (r: Option<Read<bool>>)
    requires
        pos <= s@.len(),
    ensures
        match r {
            Some(read) => at(s@, pos as int, bool_code(read.value)) && read.end == pos + 1,
            None => true,
        },
        forall|x: bool| #[trigger]
            at(s@, pos as int, bool_code(x)) ==> r is Some && r->Some_0.value == x,
{
    match read_element(s, pos) {
        Some(read) => if read.value == 0 {
            Some(Read { value: false, end: read.end })
        } else if read.value == 1 {
            Some(Read { value: true, end: read.end })
        } else {
            None
        },
        None => None,
    }
}

/// An amount.
pub fn read_amount(s: &Vec<u64>, pos: usize) -> (r: Option<Read<NativeCurrencyAmount>>)
    requires
        pos <= s@.len(),
    ensures
        match r {
            Some(read) => at(s@, pos as int, amount_code(read.value)) && read.end == pos + 4,
            None => true,
        },
        forall|x: NativeCurrencyAmount| #[trigger]
            at(s@, pos as int, amount_code(x)) ==> r is Some && r->Some_0.value == x,
{
    match read_u128(s, pos) {
        Some(read) => {
            let bits: u128 = read.value;
            let nau: i128 = bits as i128;
            assert(bits as i128 as u128 == bits) by (bit_vector);
            assert forall|x: NativeCurrencyAmount| #[trigger]
                at(s@, pos as int, amount_code(x)) implies nau == x.nau by {
                let y: i128 = x.nau;
                assert(at(s@, pos as int, u128_code(y as u128)));
                assert(y as u128 as i128 == y) by (bit_vector);
            }
            Some(Read { value: NativeCurrencyAmount::from_nau(nau), end: read.end })
        },
        None => None,
    }
}

/// An amount, or none.
pub fn read_coinbase(s: &Vec<u64>, pos: usize) -> (r: Option<Read<Option<NativeCurrencyAmount>>>)
    requires
        pos <= s@.len(),
    ensures
        match r {
            Some(read) => at(s@, pos as int, coinbase_code(read.value)) && read.end == pos
                + coinbase_code(read.value).len(),
            None => true,
        },
        forall|x: Option<NativeCurrencyAmount>| #[trigger]
            at(s@, pos as int, coinbase_code(x)) ==> r is Some && r->Some_0.value == x,
{
    proof {
        assert forall|x: Option<NativeCurrencyAmount>| #[trigger]
            at(s@, pos as int, coinbase_code(x)) implies match x {
            Some(a) => at(s@, pos as int, seq![1u64]) && at(s@, pos + 1, amount_code(a)),
            None => at(s@, pos as int, seq![0u64]),
        } by {
            match x {
                Some(a) => {
                    lemma_at_concat(s@, pos as int, seq![1u64], amount_code(a));
                },
                None => {},
            }
        }
    }
    match read_element(s, pos) {
        Some(tag) => if tag.value == 0 {
            Some(Read { value: None, end: tag.end })
        } else if tag.value == 1 {
            match read_amount(s, tag.end) {
                Some(amount) => {
                    proof {
                        lemma_at_concat(s@, pos as int, seq![1u64], amount_code(amount.value));
                    }
                    Some(Read { value: Some(amount.value), end: amount.end })
                },
                None => None,
            }
        } else {
            None
        },
        None => None,
    }
}

/// A difficulty.
pub fn read_difficulty(s: &Vec<u64>, pos: usize) -> (r: Option<Read<Difficulty>>)
    requires
        pos <= s@.len(),
    ensures
        match r {
            Some(read) => at(s@, pos as int, difficulty_code(read.value)) && read.end == pos + 5,
            None => true,
        },
        forall|x: Difficulty| #[trigger]
            at(s@, pos as int, difficulty_code(x)) ==> r is Some && r->Some_0.value == x,
{
    proof {
        assert forall|x: Difficulty| #[trigger] at(s@, pos as int, difficulty_code(x)) implies at(
            s@,
            pos as int,
            u64_code(x.lo),
        ) && at(s@, pos + 2, u64_code(x.mid)) && at(s@, pos + 4, seq![x.hi as u64]) by {
            lemma_at_concat(s@, pos as int, u64_code(x.lo) + u64_code(x.mid), seq![x.hi as u64]);
            lemma_at_concat(s@, pos as int, u64_code(x.lo), u64_code(x.mid));
        }
    }
    let lo: Read<u64> = match read_u64(s, pos) {
        Some(read) => read,
        None => {
            return None;
        },
    };
    let mid: Read<u64> = match read_u64(s, lo.end) {
        Some(read) => read,
        None => {
            return None;
        },
    };
    let hi: Read<u32> = match read_u32(s, mid.end) {
        Some(read) => read,
        None => {
            return None;
        },
    };
    let value = Difficulty { lo: lo.value, mid: mid.value, hi: hi.value };
    proof {
        lemma_at_concat(
            s@,
            pos as int,
            u64_code(value.lo) + u64_code(value.mid),
            seq![value.hi as u64],
        );
        lemma_at_concat(s@, pos as int, u64_code(value.lo), u64_code(value.mid));
    }
    Some(Read { value, end: hi.end })
}

/// Accumulated proof-of-work.
pub fn read_proof_of_work(s: &Vec<u64>, pos: usize) -> (r: Option<Read<ProofOfWork>>)
    requires
        pos <= s@.len(),
    ensures
        match r {
            Some(read) => at(s@, pos as int, proof_of_work_code(read.value)) && read.end == pos + 6,
            None => true,
        },
        forall|x: ProofOfWork| #[trigger]
            at(s@, pos as int, proof_of_work_code(x)) ==> r is Some && r->Some_0.value == x,
{
    proof {
        assert forall|x: ProofOfWork| #[trigger]
            at(s@, pos as int, proof_of_work_code(x)) implies at(
            s@,
            pos as int,
            u64_code(x.sum.lo),
        ) && at(s@, pos + 2, u64_code(x.sum.mid)) && at(s@, pos + 4, u64_code(x.sum.hi)) by {
            let n = x.sum;
            lemma_at_concat(s@, pos as int, u64_code(n.lo) + u64_code(n.mid), u64_code(n.hi));
            lemma_at_concat(s@, pos as int, u64_code(n.lo), u64_code(n.mid));
        }
    }
    let lo: Read<u64> = match read_u64(s, pos) {
        Some(read) => read,
        None => {
            return None;
        },
    };
    let mid: Read<u64> = match read_u64(s, lo.end) {
        Some(read) => read,
        None => {
            return None;
        },
    };
    let hi: Read<u64> = match read_u64(s, mid.end) {
        Some(read) => read,
        None => {
            return None;
        },
    };
    let value = ProofOfWork { sum: U192 { lo: lo.value, mid: mid.value, hi: hi.value } };
    proof {
        let n = value.sum;
        lemma_at_concat(s@, pos as int, u64_code(n.lo) + u64_code(n.mid), u64_code(n.hi));
        lemma_at_concat(s@, pos as int, u64_code(n.lo), u64_code(n.mid));
    }
    Some(Read { value, end: hi.end })
}

/// The length of a sequence that follows, if it does.
pub fn read_len(s: &Vec<u64>, pos: usize) -> (r: Option<Read<usize>>)
    requires
        pos <= s@.len(),
    ensures
        match r {
            Some(read) => {
                &&& pos < s@.len()
                &&& s@[pos as int] == read.value
                &&& read.end == pos + 1
                &&& read.end + read.value <= s@.len()
            },
            None => true,
        },
        forall|code: Seq<u64>| #[trigger]
            at(s@, pos as int, sized(code)) ==> r is Some && r->Some_0.value == code.len() && at(
                s@,
                pos + 1,
                code,
            ),
{
    let total: usize = s.len();
    proof {
        assert forall|code: Seq<u64>| #[trigger] at(s@, pos as int, sized(code)) implies pos
            < s@.len() && s@[pos as int] == code.len() && at(s@, pos + 1, code) by {
            lemma_at_sized(s@, pos as int, code);
        }
    }
    if pos >= s.len() {
        return None;
    }
    let len: u64 = s[pos];
    let rest: usize = s.len() - pos - 1;
    if len > rest as u64 {
        return None;
    }
    Some(Read { value: len as usize, end: pos + 1 })
}

/// Elements that are preceded by their number.
pub fn read_words(s: &Vec<u64>, pos: usize) -> (r: Option<Read<Vec<u64>>>)
    requires
        pos <= s@.len(),
    ensures
        match r {
            Some(read) => at(s@, pos as int, sized(read.value@)) && read.end == pos
                + read.value@.len() + 1,
            None => true,
        },
        forall|x: Seq<u64>| #[trigger]
            at(s@, pos as int, sized(x)) ==> r is Some && r->Some_0.value@ == x,
{
    let len: Read<usize> = match read_len(s, pos) {
        Some(read) => read,
        None => {
            return None;
        },
    };
    let mut value: Vec<u64> = Vec::new();
    let start: usize = len.end;
    let total: usize = s.len();
    let mut i: usize = 0;
    while i < len.value
        invariant
            i <= len.value,
            start + len.value <= s@.len() == total,
            value@ == s@.subrange(start as int, start + i),
        decreases len.value - i,
    {
        value.push(s[start + i]);
        i = i + 1;
        assert(value@ =~= s@.subrange(start as int, start + i));
    }
    proof {
        lemma_at_sized(s@, pos as int, value@);
        assert(at(s@, pos + 1, value@));
    }
    Some(Read { value, end: start + len.value })
}

} // verus!
