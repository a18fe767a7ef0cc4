//! Work distribution: splitting a total request count evenly across workers.

use vstd::prelude::*;
use vstd::arithmetic::div_mod::{lemma_fundamental_div_mod, lemma_mod_bound};
use vstd::arithmetic::mul::{lemma_mul_inequality, lemma_mul_is_distributive_add_other_way};

verus! {

/// Quota of worker `i` when `n` requests are split across `c` workers:
/// every worker takes `n / c`, and the first `n % c` workers take one
/// extra request each.
pub open spec fn quota_spec(n: u64, c: u64, i: u64) -> int
    recommends
        c >= 1,
{
    n as int / c as int + if (i as int) < n as int % c as int {
        1int
    } else {
        0int
    }
}

/// Sum of the quotas of workers `0 .. k`.
pub open spec fn quota_sum(n: u64, c: u64, k: int) -> int
    decreases k,
{
    if k <= 0 {
        0
    } else {
        quota_sum(n, c, k - 1) + quota_spec(n, c, (k - 1) as u64)
    }
}

/// Closed form of `quota_sum`: `k` even shares plus one extra unit for
/// each of the first `min(k, n % c)` workers.
proof fn lemma_quota_sum_closed(n: u64, c: u64, k: int)
    requires
        c >= 1,
        0 <= k <= c,
    ensures
        quota_sum(n, c, k) == k * (n as int / c as int) + (if k <= n as int % c as int {
            k
        } else {
            n as int % c as int
        }),
    decreases k,
{
    lemma_mod_bound(n as int, c as int);
    if k > 0 {
        lemma_quota_sum_closed(n, c, k - 1);
        let d = n as int / c as int;
        let m = n as int % c as int;
        assert(((k - 1) as u64) as int == k - 1);
        lemma_mul_is_distributive_add_other_way(d, k - 1, 1);
        assert(k * d == (k - 1) * d + 1 * d);
        assert(quota_sum(n, c, k) == quota_sum(n, c, k - 1) + d + (if k - 1 < m {
            1int
        } else {
            0int
        }));
        if k <= m {
            assert(quota_sum(n, c, k) == k * d + k);
        } else {
            assert(quota_sum(n, c, k) == k * d + m);
        }
    } else {
        assert(k == 0);
        assert(quota_sum(n, c, 0) == 0);
        assert(k * (n as int / c as int) == 0);
        assert(0 <= n as int % c as int);
    }
}

/// The quotas of all `c` workers sum to exactly `n`, and exactly the
/// first `n % c` workers take one unit beyond the even share.
pub proof fn lemma_quota_sum_total(n: u64, c: u64)
    requires
        c >= 1,
    ensures
        quota_sum(n, c, c as int) == n as int,
        forall|i: u64| (i as int) < n as int % c as int ==> #[trigger] quota_spec(n, c, i)
            == n as int / c as int + 1,
        forall|i: u64| n as int % c as int <= i as int ==> #[trigger] quota_spec(n, c, i)
            == n as int / c as int,
{
    lemma_quota_sum_closed(n, c, c as int);
    lemma_mod_bound(n as int, c as int);
    lemma_fundamental_div_mod(n as int, c as int);
}

/// Assigns worker `i` its request quota.
pub fn worker_quota(n: u64, c: u64, i: u64) -> (q: u64)
    requires
        c >= 1,
        i < c,
    ensures
        q as int == quota_spec(n, c, i),
{
    let base = n / c;
    let rem = n % c;
    if i < rem {
        proof {
            lemma_fundamental_div_mod(n as int, c as int);
            lemma_mul_inequality(1, c as int, base as int);
        }
        base + 1
    } else {
        base
    }
}

} // verus!
