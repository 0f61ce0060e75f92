//! Selection by order: the largest and the smallest entries of a sequence,
//! and the total order of single-precision values given by their bit patterns.
use vstd::prelude::*;

verus! {

/// The position of the IEEE 754 single-precision value with bit pattern `bits` in the
/// `totalOrder` predicate: non-negative patterns keep their value, negative ones are
/// mirrored below them, so that comparing keys compares the values (with
/// `-NaN < -inf < ... < -0 < +0 < ... < +inf < +NaN`).
pub open spec fn total_order_key_of(bits: u32) -> int {
    if bits < 0x8000_0000 {
        bits as int
    } else {
        0x7fff_ffff - bits as int
    }
}

/// The keys order bit patterns as IEEE 754 `totalOrder` orders the single-precision
/// values they encode: patterns with the sign bit clear (`+0` up to `+NaN`) in
/// increasing order of the pattern, patterns with the sign bit set (`-0` down to `-NaN`)
/// in decreasing order of the pattern and all below the former; no two patterns share
/// a key.
pub proof fn lemma_total_order_key_orders_patterns(a: u32, b: u32)
    ensures
        a < 0x8000_0000 && b < 0x8000_0000 ==> (total_order_key_of(a) < total_order_key_of(b)
            <==> a < b),
        a >= 0x8000_0000 && b >= 0x8000_0000 ==> (total_order_key_of(a) < total_order_key_of(b)
            <==> a > b),
        a >= 0x8000_0000 && b < 0x8000_0000 ==> total_order_key_of(a) < total_order_key_of(b),
        total_order_key_of(a) == total_order_key_of(b) <==> a == b,
{
}

/// The key under which single-precision values with bit pattern `bits` sort in the
/// total order of such values.
pub fn total_order_key(bits: u32) -> (res: i64)
    ensures
        res == total_order_key_of(bits),
        bits < 0x8000_0000 ==> 0 <= res,
        bits >= 0x8000_0000 ==> res < 0,
{
    if bits < 0x8000_0000 {
        bits as i64
    } else {
        0x7fff_ffff - bits as i64
    }
}

/// `i` is the position of the last of the largest entries of `s`.
pub open spec fn is_last_max(s: Seq<i64>, i: int) -> bool {
    &&& 0 <= i < s.len()
    &&& forall|j: int| 0 <= j < s.len() ==> #[trigger] s[j] <= s[i]
    &&& forall|j: int| i < j < s.len() ==> #[trigger] s[j] < s[i]
}

/// `i` is the position of the first of the smallest entries of `s`.
pub open spec fn is_first_min(s: Seq<i64>, i: int) -> bool {
    &&& 0 <= i < s.len()
    &&& forall|j: int| 0 <= j < s.len() ==> s[i] <= #[trigger] s[j]
    &&& forall|j: int| 0 <= j < i ==> s[i] < #[trigger] s[j]
}

/// The position of the last of the largest entries, `None` for an empty sequence.
pub fn last_max_index(keys: &Vec<i64>) -> (res: Option<usize>)
    ensures
        match res {
            Some(i) => is_last_max(keys@, i as int),
            None => keys@.len() == 0,
        },
{
    let n = keys.len();
    if n == 0 {
        return None;
    }
    let mut best: usize = 0;
    for i in 1..n
        invariant
            n == keys@.len(),
            best < i,
            forall|j: int| 0 <= j < i ==> #[trigger] keys@[j] <= keys@[best as int],
            forall|j: int| best < j < i ==> #[trigger] keys@[j] < keys@[best as int],
    {
        if keys[i] >= keys[best] {
            best = i;
        }
    }
    Some(best)
}

/// The position of the first of the smallest entries, `None` for an empty sequence.
pub fn first_min_index(keys: &Vec<i64>) -> (res: Option<usize>)
    ensures
        match res {
            Some(i) => is_first_min(keys@, i as int),
            None => keys@.len() == 0,
        },
{
    let n = keys.len();
    if n == 0 {
        return None;
    }
    let mut best: usize = 0;
    for i in 1..n
        invariant
            n == keys@.len(),
            best < i,
            forall|j: int| 0 <= j < i ==> keys@[best as int] <= #[trigger] keys@[j],
            forall|j: int| 0 <= j < best ==> keys@[best as int] < #[trigger] keys@[j],
    {
        if keys[i] < keys[best] {
            best = i;
        }
    }
    Some(best)
}

} // verus!
