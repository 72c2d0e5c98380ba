//! Summary statistics over the register (or coil byte) values that a
//! write request carries.

use vstd::prelude::*;
use vstd::relations::{sorted_by, total_ordering};
use vstd::seq_lib::{to_multiset_build, to_multiset_contains, to_multiset_insert, to_multiset_len, to_multiset_remove};

verus! {

/// The number of zero bits among the `n` lowest bits of `x`.
pub open spec fn zero_bits_below(x: u16, n: nat) -> nat
    decreases n,
{
    if n == 0 {
        0
    } else {
        zero_bits_below(x, (n - 1) as nat) + if (x >> ((n - 1) as u16)) & 1 == 0 {
            1nat
        } else {
            0nat
        }
    }
}

/// The number of zero bits in the 16-bit word `x` (what `u16::count_zeros` returns).
pub open spec fn zero_bits(x: u16) -> nat {
    zero_bits_below(x, 16)
}

/// Counts the zero bits of a 16-bit word.
pub fn count_zero_bits(x: u16) -> (n: u32)
    ensures
        n == zero_bits(x),
        n <= 16,
{
    let mut n: u32 = 0;
    let mut k: u16 = 0;
    while k < 16
        invariant
            k <= 16,
            n == zero_bits_below(x, k as nat),
            n <= k,
        decreases 16 - k,
    {
        if (x >> k) & 1 == 0 {
            n = n + 1;
        }
        k = k + 1;
    }
    n
}

/// The sum of a sequence of words.
pub open spec fn sum_values(s: Seq<u16>) -> int
    decreases s.len(),
{
    if s.len() == 0 {
        0
    } else {
        sum_values(s.drop_last()) + s.last()
    }
}

/// The number of zero bits over all words of a sequence.
pub open spec fn total_zero_bits(s: Seq<u16>) -> int
    decreases s.len(),
{
    if s.len() == 0 {
        0
    } else {
        total_zero_bits(s.drop_last()) + zero_bits(s.last())
    }
}

/// The order on words.
pub open spec fn word_leq() -> spec_fn(u16, u16) -> bool {
    |a: u16, b: u16| a <= b
}

/// A sequence in non-decreasing order.
pub open spec fn is_sorted(s: Seq<u16>) -> bool {
    forall|i: int, j: int| 0 <= i <= j < s.len() ==> s[i] <= s[j]
}

/// The words of `s` in non-decreasing order.
pub open spec fn sorted_values(s: Seq<u16>) -> Seq<u16> {
    s.sort_by(word_leq())
}

/// The median of a non-empty sorted sequence: its middle element, or for an
/// even length the mean of its two middle elements rounded down.
pub open spec fn median_of_sorted(t: Seq<u16>) -> int {
    let mid = t.len() / 2;
    if t.len() % 2 == 0 {
        (t[mid - 1] + t[mid as int]) / 2
    } else {
        t[mid as int] as int
    }
}

/// Statistics over the register values of a frame. `Some(-1)` marks a
/// statistic that does not apply to the frame.
#[derive(Debug, Clone, PartialEq, Eq, PartialOrd, Ord)]
pub struct RegisterUnits {
    pub mininum_value_register: Option<i64>,
    pub maximum_value_register: Option<i64>,
    pub median_value_register: Option<i64>,
    pub total_value_register: Option<i64>,
    pub zeros_count_register: Option<i64>,
}

/// The record whose statistics all read "not applicable".
pub open spec fn no_units() -> RegisterUnits {
    RegisterUnits {
        mininum_value_register: Some(-1i64),
        maximum_value_register: Some(-1i64),
        median_value_register: Some(-1i64),
        total_value_register: Some(-1i64),
        zeros_count_register: Some(-1i64),
    }
}

impl Default for RegisterUnits {
    fn default() -> (units: Self)
        ensures
            units == no_units(),
    {
        RegisterUnits {
            mininum_value_register: Some(-1),
            maximum_value_register: Some(-1),
            median_value_register: Some(-1),
            total_value_register: Some(-1),
            zeros_count_register: Some(-1),
        }
    }
}

/// The statistics of a sequence of words: minimum, maximum, median, sum and
/// number of zero bits; for no words at all, `no_units()`.
pub open spec fn units_of(s: Seq<u16>) -> RegisterUnits {
    if s.len() == 0 {
        no_units()
    } else {
        let t = sorted_values(s);
        RegisterUnits {
            mininum_value_register: Some(t[0] as i64),
            maximum_value_register: Some(t.last() as i64),
            median_value_register: Some(median_of_sorted(t) as i64),
            total_value_register: Some(sum_values(s) as i64),
            zeros_count_register: Some(total_zero_bits(s) as i64),
        }
    }
}

proof fn lemma_word_leq_total()
    ensures
        total_ordering(word_leq()),
{
}

/// `sorted_values(s)` is a sorted rearrangement of `s`.
pub proof fn lemma_sorted_values(s: Seq<u16>)
    ensures
        is_sorted(sorted_values(s)),
        sorted_values(s).to_multiset() == s.to_multiset(),
        sorted_values(s).len() == s.len(),
{
    lemma_word_leq_total();
    s.lemma_sort_by_ensures(word_leq());
    let t = sorted_values(s);
    assert(sorted_by(t, word_leq()));
    assert forall|i: int, j: int| 0 <= i <= j < t.len() implies t[i] <= t[j] by {
        if i < j {
            assert(word_leq()(t[i], t[j]));
        }
    }
    to_multiset_len(t);
    to_multiset_len(s);
}

/// Two sorted sequences with the same elements are equal.
pub proof fn lemma_sorted_unique(a: Seq<u16>, b: Seq<u16>)
    requires
        is_sorted(a),
        is_sorted(b),
        a.to_multiset() == b.to_multiset(),
    ensures
        a == b,
    decreases a.len(),
{
    to_multiset_len(a);
    to_multiset_len(b);
    if a.len() > 0 {
        assert(a.contains(a[0]));
        to_multiset_contains(a, a[0]);
        to_multiset_contains(b, a[0]);
        let j = choose|j: int| 0 <= j < b.len() && b[j] == a[0];
        assert(b[0] <= a[0]);
        assert(b.contains(b[0]));
        to_multiset_contains(b, b[0]);
        to_multiset_contains(a, b[0]);
        let k = choose|k: int| 0 <= k < a.len() && a[k] == b[0];
        assert(a[0] <= b[0]);
        assert(a.remove(0) =~= a.drop_first());
        assert(b.remove(0) =~= b.drop_first());
        to_multiset_remove(a, 0);
        to_multiset_remove(b, 0);
        assert(a.drop_first().to_multiset() == b.drop_first().to_multiset());
        lemma_sorted_unique(a.drop_first(), b.drop_first());
        assert(a =~= b) by {
            assert forall|i: int| 0 <= i < a.len() implies a[i] == b[i] by {
                if i > 0 {
                    assert(a[i] == a.drop_first()[i - 1]);
                    assert(b[i] == b.drop_first()[i - 1]);
                }
            }
        }
    }
}

/// Returns the words of `values` in non-decreasing order.
pub fn sort_values(values: &Vec<u16>) -> (sorted: Vec<u16>)
    ensures
        sorted@ == sorted_values(values@),
{
    let mut out: Vec<u16> = Vec::new();
    let mut i: usize = 0;
    assert(out@ =~= values@.take(0));
    while i < values.len()
        invariant
            i <= values.len(),
            is_sorted(out@),
            out@.to_multiset() == values@.take(i as int).to_multiset(),
        decreases values.len() - i,
    {
        let x = values[i];
        let mut p: usize = 0;
        while p < out.len() && out[p] <= x
            invariant
                p <= out.len(),
                forall|k: int| 0 <= k < p ==> out@[k] <= x,
            decreases out.len() - p,
        {
            p = p + 1;
        }
        let ghost before = out@;
        out.insert(p, x);
        assert(out@ == before.insert(p as int, x));
        assert(is_sorted(out@)) by {
            assert forall|a: int, b: int| 0 <= a <= b < out@.len() implies out@[a] <= out@[b] by {
                if a < p && b > p {
                    assert(out@[a] == before[a]);
                    assert(out@[b] == before[b - 1]);
                } else if a == p && b > p {
                    assert(out@[b] == before[b - 1]);
                    assert(before[p as int] > x);
                } else if a < p && b == p {
                } else if a > p {
                    assert(out@[a] == before[a - 1]);
                    assert(out@[b] == before[b - 1]);
                }
            }
        }
        proof {
            to_multiset_insert(before, p as int, x);
        }
        assert(values@.take(i + 1) =~= values@.take(i as int).push(x));
        proof {
            to_multiset_build(values@.take(i as int), x);
        }
        i = i + 1;
    }
    proof {
        assert(values@.take(values.len() as int) =~= values@);
        lemma_sorted_values(values@);
        lemma_sorted_unique(out@, sorted_values(values@));
    }
    out
}

/// Computes minimum, maximum, median, sum and zero-bit count of `values`;
/// for no values, every statistic reads "not applicable".
pub fn calculate_register_units(values: &Vec<u16>) -> (units: RegisterUnits)
    ensures
        units == units_of(values@),
{
    if values.len() == 0 {
        return RegisterUnits::default();
    }
    let mut sum: u128 = 0;
    let mut zeros: u128 = 0;
    let mut i: usize = 0;
    while i < values.len()
        invariant
            i <= values.len() <= usize::MAX,
            sum == sum_values(values@.take(i as int)),
            zeros == total_zero_bits(values@.take(i as int)),
            sum <= i * 65535,
            zeros <= i * 16,
        decreases values.len() - i,
    {
        let x = values[i];
        let z = count_zero_bits(x);
        assert(values@.take(i + 1).drop_last() =~= values@.take(i as int));
        sum = sum + x as u128;
        zeros = zeros + z as u128;
        i = i + 1;
    }
    assert(values@.take(values.len() as int) =~= values@);
    let sorted = sort_values(values);
    proof {
        lemma_sorted_values(values@);
    }
    let len = sorted.len();
    let mid = len / 2;
    let median: u64 = if len % 2 == 0 {
        (sorted[mid - 1] as u64 + sorted[mid] as u64) / 2
    } else {
        sorted[mid] as u64
    };
    RegisterUnits {
        mininum_value_register: Some(sorted[0] as i64),
        maximum_value_register: Some(sorted[len - 1] as i64),
        median_value_register: Some(median as i64),
        total_value_register: Some(sum as i64),
        zeros_count_register: Some(zeros as i64),
    }
}

proof fn lemma_sums_remove(s: Seq<u16>, j: int)
    requires
        0 <= j < s.len(),
    ensures
        sum_values(s) == sum_values(s.remove(j)) + s[j],
        total_zero_bits(s) == total_zero_bits(s.remove(j)) + zero_bits(s[j]),
    decreases s.len(),
{
    if j == s.len() - 1 {
        assert(s.remove(j) =~= s.drop_last());
    } else {
        lemma_sums_remove(s.drop_last(), j);
        assert(s.remove(j).drop_last() =~= s.drop_last().remove(j));
        assert(s.remove(j).last() == s.last());
    }
}

proof fn lemma_sums_reorder(a: Seq<u16>, b: Seq<u16>)
    requires
        a.to_multiset() == b.to_multiset(),
    ensures
        sum_values(a) == sum_values(b),
        total_zero_bits(a) == total_zero_bits(b),
    decreases a.len(),
{
    to_multiset_len(a);
    to_multiset_len(b);
    if a.len() > 0 {
        let x = a.last();
        assert(a.contains(x));
        to_multiset_contains(a, x);
        to_multiset_contains(b, x);
        let j = choose|j: int| 0 <= j < b.len() && b[j] == x;
        to_multiset_remove(a, a.len() - 1);
        to_multiset_remove(b, j);
        assert(a.remove(a.len() - 1) =~= a.drop_last());
        lemma_sums_reorder(a.drop_last(), b.remove(j));
        lemma_sums_remove(b, j);
    }
}

/// The statistics do not depend on the order of the values: two sequences
/// holding the same values, each as often, have the same statistics.
pub proof fn lemma_units_reorder(a: Seq<u16>, b: Seq<u16>)
    requires
        a.to_multiset() == b.to_multiset(),
    ensures
        units_of(a) == units_of(b),
{
    to_multiset_len(a);
    to_multiset_len(b);
    lemma_sorted_values(a);
    lemma_sorted_values(b);
    lemma_sorted_unique(sorted_values(a), sorted_values(b));
    lemma_sums_reorder(a, b);
}

/// For a non-empty sequence every statistic applies; the minimum and the
/// maximum are values of the sequence and bound all of them; the median lies
/// between the minimum and the maximum; the total is the sum of the values,
/// at least the maximum and at most 65535 per value; the zero-bit count is
/// the number of zero bits over all values, at most 16 per value. (For
/// sequences so long that the sum leaves the range of `i64`, the total is
/// truncated.)
pub proof fn lemma_units_bounds(s: Seq<u16>)
    requires
        0 < s.len(),
        s.len() * 65535 <= i64::MAX,
    ensures
        ({
            let u = units_of(s);
            &&& u.mininum_value_register is Some
            &&& u.maximum_value_register is Some
            &&& u.median_value_register is Some
            &&& u.total_value_register is Some
            &&& u.zeros_count_register is Some
            &&& u.mininum_value_register.unwrap() <= u.median_value_register.unwrap()
                <= u.maximum_value_register.unwrap()
            &&& forall|i: int|
                0 <= i < s.len() ==> u.mininum_value_register.unwrap() <= #[trigger] s[i]
                    <= u.maximum_value_register.unwrap()
            &&& exists|i: int| 0 <= i < s.len() && s[i] == u.mininum_value_register.unwrap()
            &&& exists|i: int| 0 <= i < s.len() && s[i] == u.maximum_value_register.unwrap()
            &&& u.total_value_register.unwrap() == sum_values(s)
            &&& u.zeros_count_register.unwrap() == total_zero_bits(s)
            &&& 0 <= u.mininum_value_register.unwrap()
            &&& u.maximum_value_register.unwrap() <= 65535
            &&& u.maximum_value_register.unwrap() <= u.total_value_register.unwrap() <= 65535
                * s.len()
            &&& 0 <= u.zeros_count_register.unwrap() <= 16 * s.len()
        }),
{
    let t = sorted_values(s);
    lemma_sorted_values(s);
    lemma_sum_bound(s);
    let n = t.len() as int;
    assert(t[0] <= t[n / 2] <= t[n - 1]);
    if n % 2 == 0 {
        assert(t[0] <= t[n / 2 - 1]);
    }
    assert forall|i: int| 0 <= i < s.len() implies t[0] <= #[trigger] s[i] <= t[n - 1] by {
        assert(s.contains(s[i]));
        to_multiset_contains(s, s[i]);
        to_multiset_contains(t, s[i]);
        let k = choose|k: int| 0 <= k < t.len() && t[k] == s[i];
    }
    assert(t.contains(t[0]));
    to_multiset_contains(t, t[0]);
    to_multiset_contains(s, t[0]);
    assert(s.contains(t[0]));
    assert(t.contains(t[n - 1]));
    to_multiset_contains(t, t[n - 1]);
    to_multiset_contains(s, t[n - 1]);
    assert(s.contains(t[n - 1]));
    let j = choose|j: int| 0 <= j < s.len() && s[j] == t[n - 1];
    lemma_sums_remove(s, j);
    lemma_sum_bound(s.remove(j));
    lemma_total_zero_bits_bound(s);
}

/// Among `n` bits at most `n` are zero.
pub proof fn lemma_zero_bits_below_bound(x: u16, n: nat)
    ensures
        zero_bits_below(x, n) <= n,
    decreases n,
{
    if n > 0 {
        lemma_zero_bits_below_bound(x, (n - 1) as nat);
    }
}

proof fn lemma_total_zero_bits_bound(s: Seq<u16>)
    ensures
        0 <= total_zero_bits(s) <= 16 * s.len(),
    decreases s.len(),
{
    if s.len() > 0 {
        lemma_total_zero_bits_bound(s.drop_last());
        lemma_zero_bits_below_bound(s.last(), 16);
    }
}

proof fn lemma_sum_bound(s: Seq<u16>)
    ensures
        0 <= sum_values(s) <= s.len() * 65535,
    decreases s.len(),
{
    if s.len() > 0 {
        lemma_sum_bound(s.drop_last());
    }
}

} // verus!
