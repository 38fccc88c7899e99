//! The least, the mean and the greatest of a list of samples.

use vstd::prelude::*;

verus! {

/// The sum of signed samples.
pub open spec fn sum_i128(s: Seq<i128>) -> int
    decreases s.len(),
{
    if s.len() == 0 {
        0
    } else {
        sum_i128(s.drop_last()) + s.last()
    }
}

/// The sum of unsigned samples.
pub open spec fn sum_u128(s: Seq<u128>) -> int
    decreases s.len(),
{
    if s.len() == 0 {
        0
    } else {
        sum_u128(s.drop_last()) + s.last()
    }
}

/// The sum of counts.
pub open spec fn sum_u64(s: Seq<u64>) -> int
    decreases s.len(),
{
    if s.len() == 0 {
        0
    } else {
        sum_u64(s.drop_last()) + s.last()
    }
}

/// The quotient rounded towards zero.
pub open spec fn quotient(a: int, b: int) -> int {
    if a >= 0 {
        a / b
    } else {
        -((-a) / b)
    }
}

/// Whether the samples can be added up from left to right in an `i128`.
pub open spec fn summable(s: Seq<i128>) -> bool {
    forall|k: int|
        0 <= k <= s.len() ==> i128::MIN <= #[trigger] sum_i128(s.take(k)) <= i128::MAX
}

/// Whether `r` is the least sample, the mean rounded towards zero and the greatest sample,
/// or three zeros where there is no sample.
pub open spec fn is_stats_i128(s: Seq<i128>, r: (i128, i128, i128)) -> bool {
    if s.len() == 0 {
        r == (0i128, 0i128, 0i128)
    } else {
        &&& s.contains(r.0)
        &&& s.contains(r.2)
        &&& forall|i: int| 0 <= i < s.len() ==> r.0 <= #[trigger] s[i] <= r.2
        &&& r.1 == quotient(sum_i128(s), s.len() as int)
    }
}

/// Whether `r` is the least sample, the mean rounded down and the greatest sample, or three
/// zeros where there is no sample.
pub open spec fn is_stats_u128(s: Seq<u128>, r: (u128, u128, u128)) -> bool {
    if s.len() == 0 {
        r == (0u128, 0u128, 0u128)
    } else {
        &&& s.contains(r.0)
        &&& s.contains(r.2)
        &&& forall|i: int| 0 <= i < s.len() ==> r.0 <= #[trigger] s[i] <= r.2
        &&& r.1 == mean_of(s)
    }
}

/// The mean rounded down, zero where there is no sample.
pub open spec fn mean_of(s: Seq<u128>) -> int {
    if s.len() == 0 {
        0
    } else {
        sum_u128(s) / s.len() as int
    }
}

/// The mean rounded towards zero, zero where there is no sample.
pub open spec fn mean_of_signed(s: Seq<i128>) -> int {
    if s.len() == 0 {
        0
    } else {
        quotient(sum_i128(s), s.len() as int)
    }
}

proof fn lemma_sum_u128_monotone(s: Seq<u128>, k: int)
    requires
        0 <= k <= s.len(),
    ensures
        0 <= sum_u128(s.take(k)) <= sum_u128(s),
    decreases s.len(),
{
    if k == s.len() {
        assert(s.take(k) =~= s);
        if k > 0 {
            lemma_sum_u128_monotone(s.drop_last(), k - 1);
            assert(s.drop_last().take(k - 1) =~= s.drop_last());
        }
    } else {
        lemma_sum_u128_monotone(s.drop_last(), k);
        assert(s.drop_last().take(k) =~= s.take(k));
    }
}

proof fn lemma_sum_u64_monotone(s: Seq<u64>, k: int)
    requires
        0 <= k <= s.len(),
    ensures
        0 <= sum_u64(s.take(k)) <= sum_u64(s),
    decreases s.len(),
{
    if k == s.len() {
        assert(s.take(k) =~= s);
        if k > 0 {
            lemma_sum_u64_monotone(s.drop_last(), k - 1);
            assert(s.drop_last().take(k - 1) =~= s.drop_last());
        }
    } else {
        lemma_sum_u64_monotone(s.drop_last(), k);
        assert(s.drop_last().take(k) =~= s.take(k));
    }
}

/// Whether the samples can be added up from left to right.
pub fn is_summable(v: &[i128]) -> (r: bool)
    ensures
        r == summable(v@),
{
    let n: usize = v.len();
    let mut sum: i128 = 0;
    let mut i: usize = 0;
    assert(v@.take(0) =~= Seq::empty());
    while i < n
        invariant
            n == v@.len(),
            i <= n,
            sum == sum_i128(v@.take(i as int)),
            forall|k: int|
                0 <= k <= i ==> i128::MIN <= #[trigger] sum_i128(v@.take(k)) <= i128::MAX,
        decreases n - i,
    {
        assert(v@.take(i + 1).drop_last() =~= v@.take(i as int));
        match sum.checked_add(v[i]) {
            Some(next) => {
                sum = next;
            },
            None => {
                assert(!(i128::MIN <= sum_i128(v@.take(i + 1)) <= i128::MAX));
                return false;
            },
        }
        i = i + 1;
    }
    true
}

/// Whether the sum of unsigned samples fits into a `u128`.
pub fn has_sum_u128(v: &[u128]) -> (r: bool)
    ensures
        r == (sum_u128(v@) <= u128::MAX),
{
    let n: usize = v.len();
    let mut sum: u128 = 0;
    let mut i: usize = 0;
    assert(v@.take(0) =~= Seq::empty());
    while i < n
        invariant
            n == v@.len(),
            i <= n,
            sum == sum_u128(v@.take(i as int)),
        decreases n - i,
    {
        assert(v@.take(i + 1).drop_last() =~= v@.take(i as int));
        proof {
            lemma_sum_u128_monotone(v@, i + 1);
        }
        match sum.checked_add(v[i]) {
            Some(next) => {
                sum = next;
            },
            None => {
                return false;
            },
        }
        i = i + 1;
    }
    assert(v@.take(n as int) =~= v@);
    true
}

/// Whether the sum of counts fits into a `u64`.
pub fn has_sum_u64(v: &[u64]) -> (r: bool)
    ensures
        r == (sum_u64(v@) <= u64::MAX),
{
    let n: usize = v.len();
    let mut sum: u64 = 0;
    let mut i: usize = 0;
    assert(v@.take(0) =~= Seq::empty());
    while i < n
        invariant
            n == v@.len(),
            i <= n,
            sum == sum_u64(v@.take(i as int)),
        decreases n - i,
    {
        assert(v@.take(i + 1).drop_last() =~= v@.take(i as int));
        proof {
            lemma_sum_u64_monotone(v@, i + 1);
        }
        match sum.checked_add(v[i]) {
            Some(next) => {
                sum = next;
            },
            None => {
                return false;
            },
        }
        i = i + 1;
    }
    assert(v@.take(n as int) =~= v@);
    true
}

/// The least, the mean and the greatest of signed samples.
pub fn stats_i128(v: &[i128]) -> (r: (i128, i128, i128))
    requires
        summable(v@),
    ensures
        is_stats_i128(v@, r),
{
    let n: usize = v.len();
    if n == 0 {
        return (0, 0, 0);
    }
    let mut min: i128 = v[0];
    let mut max: i128 = v[0];
    let mut sum: i128 = 0;
    let mut i: usize = 0;
    assert(v@.take(0) =~= Seq::empty());
    while i < n
        invariant
            n == v@.len(),
            0 < n,
            i <= n,
            summable(v@),
            sum == sum_i128(v@.take(i as int)),
            v@.contains(min),
            v@.contains(max),
            forall|j: int| 0 <= j < i ==> min <= #[trigger] v@[j] <= max,
        decreases n - i,
    {
        let x: i128 = v[i];
        assert(v@.take(i + 1).drop_last() =~= v@.take(i as int));
        assert(i128::MIN <= sum_i128(v@.take(i + 1)) <= i128::MAX);
        sum = sum + x;
        if x < min {
            min = x;
        }
        if x > max {
            max = x;
        }
        i = i + 1;
    }
    assert(v@.take(n as int) =~= v@);
    (min, sum / (n as i128), max)
}

/// The least, the mean and the greatest of unsigned samples.
pub fn stats_u128(v: &[u128]) -> (r: (u128, u128, u128))
    requires
        sum_u128(v@) <= u128::MAX,
    ensures
        is_stats_u128(v@, r),
{
    let n: usize = v.len();
    if n == 0 {
        return (0, 0, 0);
    }
    let mut min: u128 = v[0];
    let mut max: u128 = v[0];
    let mut i: usize = 0;
    while i < n
        invariant
            n == v@.len(),
            0 < n,
            i <= n,
            v@.contains(min),
            v@.contains(max),
            forall|j: int| 0 <= j < i ==> min <= #[trigger] v@[j] <= max,
        decreases n - i,
    {
        let x: u128 = v[i];
        if x < min {
            min = x;
        }
        if x > max {
            max = x;
        }
        i = i + 1;
    }
    (min, mean_u128(v), max)
}

/// The mean of unsigned samples, rounded down; zero where there is no sample.
pub fn mean_u128(v: &[u128]) -> (r: u128)
    requires
        sum_u128(v@) <= u128::MAX,
    ensures
        r == mean_of(v@),
{
    let n: usize = v.len();
    if n == 0 {
        return 0;
    }
    let mut sum: u128 = 0;
    let mut i: usize = 0;
    assert(v@.take(0) =~= Seq::empty());
    while i < n
        invariant
            n == v@.len(),
            i <= n,
            sum_u128(v@) <= u128::MAX,
            sum == sum_u128(v@.take(i as int)),
        decreases n - i,
    {
        assert(v@.take(i + 1).drop_last() =~= v@.take(i as int));
        proof {
            lemma_sum_u128_monotone(v@, i + 1);
        }
        sum = sum + v[i];
        i = i + 1;
    }
    assert(v@.take(n as int) =~= v@);
    sum / (n as u128)
}

/// The sum of counts.
pub fn total_u64(v: &[u64]) -> (r: u64)
    requires
        sum_u64(v@) <= u64::MAX,
    ensures
        r == sum_u64(v@),
{
    let n: usize = v.len();
    let mut sum: u64 = 0;
    let mut i: usize = 0;
    assert(v@.take(0) =~= Seq::empty());
    while i < n
        invariant
            n == v@.len(),
            i <= n,
            sum_u64(v@) <= u64::MAX,
            sum == sum_u64(v@.take(i as int)),
        decreases n - i,
    {
        assert(v@.take(i + 1).drop_last() =~= v@.take(i as int));
        proof {
            lemma_sum_u64_monotone(v@, i + 1);
        }
        sum = sum + v[i];
        i = i + 1;
    }
    assert(v@.take(n as int) =~= v@);
    sum
}

/// The sum of samples between `lo` and `hi` lies between as many times `lo` and as many times
/// `hi`.
pub proof fn lemma_sum_i128_bounds(s: Seq<i128>, lo: int, hi: int)
    requires
        forall|i: int| 0 <= i < s.len() ==> lo <= #[trigger] s[i] <= hi,
    ensures
        s.len() * lo <= sum_i128(s) <= s.len() * hi,
    decreases s.len(),
{
    if s.len() > 0 {
        lemma_sum_i128_bounds(s.drop_last(), lo, hi);
        let n = s.len() as int;
        assert(n * lo == (n - 1) * lo + lo) by (nonlinear_arith);
        assert(n * hi == (n - 1) * hi + hi) by (nonlinear_arith);
    }
}

/// The sum of samples between `lo` and `hi` lies between as many times `lo` and as many times
/// `hi`.
pub proof fn lemma_sum_u128_bounds(s: Seq<u128>, lo: int, hi: int)
    requires
        forall|i: int| 0 <= i < s.len() ==> lo <= #[trigger] s[i] <= hi,
    ensures
        s.len() * lo <= sum_u128(s) <= s.len() * hi,
    decreases s.len(),
{
    if s.len() > 0 {
        lemma_sum_u128_bounds(s.drop_last(), lo, hi);
        let n = s.len() as int;
        assert(n * lo == (n - 1) * lo + lo) by (nonlinear_arith);
        assert(n * hi == (n - 1) * hi + hi) by (nonlinear_arith);
    }
}

/// Law: the mean of unsigned samples lies between the least and the greatest sample.
pub proof fn law_mean_between_u128(s: Seq<u128>, r: (u128, u128, u128))
    requires
        is_stats_u128(s, r),
    ensures
        r.0 <= r.1 <= r.2,
{
    if s.len() > 0 {
        lemma_sum_u128_bounds(s, r.0 as int, r.2 as int);
        lemma_quotient_between(sum_u128(s), s.len() as int, r.0 as int, r.2 as int);
    }
}

/// Law: the mean lies between the least and the greatest sample.
pub proof fn law_mean_between(s: Seq<i128>, r: (i128, i128, i128))
    requires
        is_stats_i128(s, r),
    ensures
        r.0 <= r.1 <= r.2,
{
    if s.len() > 0 {
        lemma_sum_i128_bounds(s, r.0 as int, r.2 as int);
        lemma_quotient_between(sum_i128(s), s.len() as int, r.0 as int, r.2 as int);
    }
}

proof fn lemma_sum_i128_remove(s: Seq<i128>, i: int)
    requires
        0 <= i < s.len(),
    ensures
        sum_i128(s) == sum_i128(s.remove(i)) + s[i],
    decreases s.len(),
{
    let n = s.len() - 1;
    if i == n {
        assert(s.remove(i) =~= s.drop_last());
    } else {
        lemma_sum_i128_remove(s.drop_last(), i);
        assert(s.remove(i).drop_last() =~= s.drop_last().remove(i));
        assert(s.remove(i).last() == s.last());
    }
}

proof fn lemma_sum_i128_order(a: Seq<i128>, b: Seq<i128>)
    requires
        a.to_multiset() == b.to_multiset(),
    ensures
        a.len() == b.len(),
        sum_i128(a) == sum_i128(b),
    decreases a.len(),
{
    a.to_multiset_ensures();
    b.to_multiset_ensures();
    if a.len() > 0 {
        let n = a.len() - 1;
        assert(a.contains(a[n]));
        assert(b.to_multiset().count(a[n]) > 0);
        let i = choose|i: int| 0 <= i < b.len() && b[i] == a[n];
        assert(a.remove(n).to_multiset() =~= b.remove(i).to_multiset());
        lemma_sum_i128_order(a.remove(n), b.remove(i));
        lemma_sum_i128_remove(a, n);
        lemma_sum_i128_remove(b, i);
    }
}

proof fn lemma_sum_u128_remove(s: Seq<u128>, i: int)
    requires
        0 <= i < s.len(),
    ensures
        sum_u128(s) == sum_u128(s.remove(i)) + s[i],
    decreases s.len(),
{
    let n = s.len() - 1;
    if i == n {
        assert(s.remove(i) =~= s.drop_last());
    } else {
        lemma_sum_u128_remove(s.drop_last(), i);
        assert(s.remove(i).drop_last() =~= s.drop_last().remove(i));
        assert(s.remove(i).last() == s.last());
    }
}

proof fn lemma_sum_u128_order(a: Seq<u128>, b: Seq<u128>)
    requires
        a.to_multiset() == b.to_multiset(),
    ensures
        a.len() == b.len(),
        sum_u128(a) == sum_u128(b),
    decreases a.len(),
{
    a.to_multiset_ensures();
    b.to_multiset_ensures();
    if a.len() > 0 {
        let n = a.len() - 1;
        assert(a.contains(a[n]));
        assert(b.to_multiset().count(a[n]) > 0);
        let i = choose|i: int| 0 <= i < b.len() && b[i] == a[n];
        assert(a.remove(n).to_multiset() =~= b.remove(i).to_multiset());
        lemma_sum_u128_order(a.remove(n), b.remove(i));
        lemma_sum_u128_remove(a, n);
        lemma_sum_u128_remove(b, i);
    }
}

/// Law: the least, the mean and the greatest of samples do not depend on their order.
pub proof fn law_order_is_irrelevant(a: Seq<i128>, b: Seq<i128>, r: (i128, i128, i128))
    requires
        a.to_multiset() == b.to_multiset(),
        is_stats_i128(a, r),
    ensures
        is_stats_i128(b, r),
{
    lemma_sum_i128_order(a, b);
    a.to_multiset_ensures();
    b.to_multiset_ensures();
    if a.len() > 0 {
        assert(a.to_multiset().count(r.0) > 0);
        assert(a.to_multiset().count(r.2) > 0);
        assert forall|i: int| 0 <= i < b.len() implies r.0 <= #[trigger] b[i] <= r.2 by {
            assert(b.contains(b[i]));
            assert(a.to_multiset().count(b[i]) > 0);
            let j = choose|j: int| 0 <= j < a.len() && a[j] == b[i];
            assert(r.0 <= a[j] <= r.2);
        }
    }
}

/// Law: the least, the mean and the greatest of unsigned samples do not depend on their order.
pub proof fn law_order_is_irrelevant_u128(a: Seq<u128>, b: Seq<u128>, r: (u128, u128, u128))
    requires
        a.to_multiset() == b.to_multiset(),
        is_stats_u128(a, r),
    ensures
        is_stats_u128(b, r),
{
    lemma_sum_u128_order(a, b);
    a.to_multiset_ensures();
    b.to_multiset_ensures();
    if a.len() > 0 {
        assert(a.to_multiset().count(r.0) > 0);
        assert(a.to_multiset().count(r.2) > 0);
        assert forall|i: int| 0 <= i < b.len() implies r.0 <= #[trigger] b[i] <= r.2 by {
            assert(b.contains(b[i]));
            assert(a.to_multiset().count(b[i]) > 0);
            let j = choose|j: int| 0 <= j < a.len() && a[j] == b[i];
            assert(r.0 <= a[j] <= r.2);
        }
    }
}

proof fn lemma_quotient_between(a: int, n: int, lo: int, hi: int)
    requires
        n > 0,
        n * lo <= a <= n * hi,
    ensures
        lo <= quotient(a, n) <= hi,
{
    if a >= 0 {
        assert(lo <= a / n <= hi) by (nonlinear_arith)
            requires
                n > 0,
                n * lo <= a <= n * hi,
        ;
    } else {
        let b = -a;
        assert(-hi <= b / n <= -lo) by (nonlinear_arith)
            requires
                n > 0,
                n * lo <= -b <= n * hi,
        ;
    }
}

proof fn lemma_sum_i128_add(a: Seq<i128>, b: Seq<i128>)
    ensures
        sum_i128(a + b) == sum_i128(a) + sum_i128(b),
    decreases b.len(),
{
    if b.len() == 0 {
        assert(a + b =~= a);
    } else {
        lemma_sum_i128_add(a, b.drop_last());
        assert((a + b).drop_last() =~= a + b.drop_last());
        assert((a + b).last() == b.last());
    }
}

/// Law: the sum of no sample is zero, that of one sample is the sample, and that of two lists,
/// one after the other, is the sum of both.
pub proof fn law_sum_i128_adds_up(a: Seq<i128>, b: Seq<i128>, x: i128)
    ensures
        sum_i128(Seq::empty()) == 0,
        sum_i128(seq![x]) == x,
        sum_i128(a + b) == sum_i128(a) + sum_i128(b),
        sum_i128(a.push(x)) == sum_i128(a) + x,
{
    lemma_sum_i128_add(a, b);
    assert(seq![x].drop_last() =~= Seq::<i128>::empty());
    assert(a.push(x).drop_last() =~= a);
}

proof fn lemma_sum_u128_add(a: Seq<u128>, b: Seq<u128>)
    ensures
        sum_u128(a + b) == sum_u128(a) + sum_u128(b),
    decreases b.len(),
{
    if b.len() == 0 {
        assert(a + b =~= a);
    } else {
        lemma_sum_u128_add(a, b.drop_last());
        assert((a + b).drop_last() =~= a + b.drop_last());
        assert((a + b).last() == b.last());
    }
}

/// Law: the sum of no sample is zero, that of one sample is the sample, and that of two lists,
/// one after the other, is the sum of both.
pub proof fn law_sum_u128_adds_up(a: Seq<u128>, b: Seq<u128>, x: u128)
    ensures
        sum_u128(Seq::empty()) == 0,
        sum_u128(seq![x]) == x,
        sum_u128(a + b) == sum_u128(a) + sum_u128(b),
        sum_u128(a.push(x)) == sum_u128(a) + x,
{
    lemma_sum_u128_add(a, b);
    assert(seq![x].drop_last() =~= Seq::<u128>::empty());
    assert(a.push(x).drop_last() =~= a);
}

proof fn lemma_sum_u64_add(a: Seq<u64>, b: Seq<u64>)
    ensures
        sum_u64(a + b) == sum_u64(a) + sum_u64(b),
    decreases b.len(),
{
    if b.len() == 0 {
        assert(a + b =~= a);
    } else {
        lemma_sum_u64_add(a, b.drop_last());
        assert((a + b).drop_last() =~= a + b.drop_last());
        assert((a + b).last() == b.last());
    }
}

/// Law: the sum of no sample is zero, that of one sample is the sample, and that of two lists,
/// one after the other, is the sum of both.
pub proof fn law_sum_u64_adds_up(a: Seq<u64>, b: Seq<u64>, x: u64)
    ensures
        sum_u64(Seq::empty()) == 0,
        sum_u64(seq![x]) == x,
        sum_u64(a + b) == sum_u64(a) + sum_u64(b),
        sum_u64(a.push(x)) == sum_u64(a) + x,
{
    lemma_sum_u64_add(a, b);
    assert(seq![x].drop_last() =~= Seq::<u64>::empty());
    assert(a.push(x).drop_last() =~= a);
}

proof fn lemma_quotient_cuts_off(a: int, n: int)
    requires
        n > 0,
    ensures
        a >= 0 ==> 0 <= a - n * quotient(a, n) < n,
        a <= 0 ==> 0 <= n * quotient(a, n) - a < n,
{
    let b = if a >= 0 {
        a
    } else {
        -a
    };
    let q = b / n;
    assert(0 <= b - n * q < n) by (nonlinear_arith)
        requires
            n > 0,
            b >= 0,
            q == b / n,
    ;
    assert(n * (-q) == -(n * q)) by (nonlinear_arith);
    if a == 0 {
        assert(q == 0) by (nonlinear_arith)
            requires
                n > 0,
                q == 0int / n,
        ;
    }
}

/// Law: figures of samples are three zeros where there is no sample. Otherwise no sample lies
/// below the first or above the third, both are samples, and the second, times the number of
/// samples, is the sum of the samples but for a rest of less than that number, cut off towards
/// zero.
pub proof fn law_figures(s: Seq<i128>, r: (i128, i128, i128), i: int)
    requires
        is_stats_i128(s, r),
    ensures
        s.len() == 0 ==> r.0 == 0 && r.1 == 0 && r.2 == 0,
        0 <= i < s.len() ==> r.0 <= s[i] <= r.2,
        s.len() > 0 ==> s.contains(r.0) && s.contains(r.2),
        s.len() > 0 && sum_i128(s) >= 0 ==> 0 <= sum_i128(s) - s.len() * r.1 < s.len(),
        s.len() > 0 && sum_i128(s) <= 0 ==> 0 <= s.len() * r.1 - sum_i128(s) < s.len(),
        r.1 == mean_of_signed(s),
{
    if s.len() > 0 {
        lemma_quotient_cuts_off(sum_i128(s), s.len() as int);
    }
}

/// Law: figures of unsigned samples are three zeros where there is no sample. Otherwise no
/// sample lies below the first or above the third, both are samples, and the second, times the
/// number of samples, is the sum of the samples but for a rest of less than that number.
pub proof fn law_figures_u128(s: Seq<u128>, r: (u128, u128, u128), i: int)
    requires
        is_stats_u128(s, r),
    ensures
        s.len() == 0 ==> r.0 == 0 && r.1 == 0 && r.2 == 0,
        0 <= i < s.len() ==> r.0 <= s[i] <= r.2,
        s.len() > 0 ==> s.contains(r.0) && s.contains(r.2),
        s.len() > 0 ==> 0 <= sum_u128(s) - s.len() * r.1 < s.len(),
        r.1 == mean_of(s),
{
    law_mean_cuts_off(s);
}

/// Law: a mean of unsigned samples, times their number, is their sum but for a rest of less than
/// that number; without a sample it is zero.
pub proof fn law_mean_cuts_off(s: Seq<u128>)
    ensures
        s.len() == 0 ==> mean_of(s) == 0,
        s.len() > 0 ==> 0 <= sum_u128(s) - s.len() * mean_of(s) < s.len(),
{
    if s.len() > 0 {
        let n = s.len() as int;
        let a = sum_u128(s);
        assert(0 <= a - n * (a / n) < n) by (nonlinear_arith)
            requires
                n > 0,
        ;
    }
}

/// Law: samples can be added up just where the sum of each of their beginnings, the whole list
/// among them, is a number of 128 bits.
pub proof fn law_summable(s: Seq<i128>)
    ensures
        summable(s) <==> forall|k: int|
            0 <= k <= s.len() ==> -0x8000_0000_0000_0000_0000_0000_0000_0000 <= sum_i128(
                #[trigger] s.subrange(0, k),
            ) <= 0x7fff_ffff_ffff_ffff_ffff_ffff_ffff_ffff,
{
    assert forall|k: int| 0 <= k <= s.len() implies #[trigger] s.subrange(0, k) == s.take(k) by {
        assert(s.subrange(0, k) =~= s.take(k));
    }
    if summable(s) {
        assert forall|k: int| 0 <= k <= s.len() implies i128::MIN <= sum_i128(
            #[trigger] s.subrange(0, k),
        ) <= i128::MAX by {
            assert(i128::MIN <= sum_i128(s.take(k)) <= i128::MAX);
        }
    } else {
        let k = choose|k: int|
            0 <= k <= s.len() && !(i128::MIN <= #[trigger] sum_i128(s.take(k)) <= i128::MAX);
        assert(s.subrange(0, k) == s.take(k));
    }
}

} // verus!
