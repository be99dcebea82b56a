//! Binomial coefficients, the weights of Bezier curves.

use vstd::prelude::*;
use vstd::arithmetic::power::pow;

verus! {

/// The binomial coefficient `n choose k`, by Pascal's rule.
pub open spec fn binom(n: nat, k: nat) -> nat
    decreases n,
{
    if k == 0 {
        1
    } else if n == 0 {
        0
    } else {
        binom((n - 1) as nat, (k - 1) as nat) + binom((n - 1) as nat, k)
    }
}

/// `n choose k` is zero when `k > n`.
pub proof fn lemma_binom_zero(n: nat, k: nat)
    requires
        k > n,
    ensures
        binom(n, k) == 0,
    decreases n,
{
    if n > 0 {
        lemma_binom_zero((n - 1) as nat, (k - 1) as nat);
        lemma_binom_zero((n - 1) as nat, k);
    }
}

/// `n choose n` is one.
pub proof fn lemma_binom_diag(n: nat)
    ensures
        binom(n, n) == 1,
    decreases n,
{
    if n > 0 {
        lemma_binom_diag((n - 1) as nat);
        lemma_binom_zero((n - 1) as nat, n);
    }
}

/// Going down a column of Pascal's triangle never decreases the entry.
pub proof fn lemma_binom_monotone(m: nat, n: nat, k: nat)
    requires
        m <= n,
    ensures
        binom(m, k) <= binom(n, k),
    decreases n - m,
{
    if m < n {
        lemma_binom_monotone(m, (n - 1) as nat, k);
    }
}

/// Every row of Pascal's triangle reads the same in both directions:
/// `n choose k == n choose (n - k)`.
pub proof fn lemma_binom_symmetric(n: nat, k: nat)
    requires
        k <= n,
    ensures
        binom(n, k) == binom(n, (n - k) as nat),
    decreases n,
{
    if k == 0 {
        lemma_binom_diag(n);
    } else if k == n {
        lemma_binom_diag(n);
    } else {
        lemma_binom_symmetric((n - 1) as nat, (k - 1) as nat);
        lemma_binom_symmetric((n - 1) as nat, k);
        assert(binom(n, (n - k) as nat) == binom((n - 1) as nat, (n - k - 1) as nat) + binom(
            (n - 1) as nat,
            (n - k) as nat,
        ));
    }
}

/// Sum of the first `m` entries of row `n`.
pub open spec fn row_sum(n: nat, m: nat) -> nat
    decreases m,
{
    if m == 0 {
        0
    } else {
        row_sum(n, (m - 1) as nat) + binom(n, (m - 1) as nat)
    }
}

proof fn lemma_row_sum_step(n: nat, m: nat)
    ensures
        row_sum(n + 1, m + 1) == row_sum(n, m) + row_sum(n, m + 1),
    decreases m,
{
    if m > 0 {
        let mm = (m - 1) as nat;
        lemma_row_sum_step(n, mm);
        assert(binom(n + 1, m) == binom(n, mm) + binom(n, m));
        assert(row_sum(n + 1, m + 1) == row_sum(n + 1, m) + binom(n + 1, m));
        assert(row_sum(n, m + 1) == row_sum(n, m) + binom(n, m));
        assert(row_sum(n, m) == row_sum(n, mm) + binom(n, mm));
    } else {
        assert(row_sum(n + 1, 1) == row_sum(n + 1, 0) + binom(n + 1, 0));
        assert(row_sum(n, 1) == row_sum(n, 0) + binom(n, 0));
    }
}

/// The entries of row `n` of Pascal's triangle add up to `2^n`.
pub proof fn lemma_binom_row_sum(n: nat)
    ensures
        row_sum(n, n + 1) == pow(2, n),
    decreases n,
{
    reveal(pow);
    if n > 0 {
        let p = (n - 1) as nat;
        lemma_binom_row_sum(p);
        lemma_row_sum_step(p, n);
        lemma_binom_zero(p, n);
        assert(row_sum(p, n + 1) == row_sum(p, n) + binom(p, n));
        assert(pow(2, n) == 2 * pow(2, p));
    } else {
        assert(row_sum(0, 1) == row_sum(0, 0) + binom(0, 0));
    }
}

/// Row `n` of Pascal's triangle: `n + 1` entries, `n choose k` at index `k`;
/// `None` when an entry of the row does not fit in a `u128`.
pub fn binomial_coeffs(n: usize) -> (r: Option<Vec<u128>>)
    requires
        n < usize::MAX,
    ensures
        r is Some <==> forall|k: nat| k <= n ==> #[trigger] binom(n as nat, k) <= u128::MAX,
        r matches Some(v) ==> v@.len() == n + 1 && forall|k: int|
            0 <= k <= n ==> v@[k] == binom(n as nat, k as nat),
{
    if n == 0 {
        let mut v: Vec<u128> = Vec::new();
        v.push(1);
        proof {
            assert forall|k: nat| k <= n implies #[trigger] binom(n as nat, k) <= u128::MAX by {}
        }
        return Some(v);
    }
    let mut prev: Vec<u128> = Vec::new();
    prev.push(1);
    prev.push(1);
    proof {
        lemma_binom_diag(1);
    }
    let mut k: usize = 2;
    while k <= n
        invariant
            1 <= n < usize::MAX,
            2 <= k <= n + 1,
            prev@.len() == k,
            forall|j: int| 0 <= j < k ==> prev@[j] == binom((k - 1) as nat, j as nat),
        decreases n + 1 - k,
    {
        let mut next: Vec<u128> = Vec::new();
        next.push(1);
        let mut j: usize = 0;
        while j < k - 1
            invariant
                2 <= k <= n,
                prev@.len() == k,
                forall|i: int| 0 <= i < k ==> prev@[i] == binom((k - 1) as nat, i as nat),
                j <= k - 1,
                next@.len() == j + 1,
                forall|i: int| 0 <= i <= j ==> next@[i] == binom(k as nat, i as nat),
            decreases k - 1 - j,
        {
            proof {
                assert(binom(k as nat, (j + 1) as nat) == binom((k - 1) as nat, j as nat) + binom(
                    (k - 1) as nat,
                    (j + 1) as nat,
                ));
            }
            match prev[j].checked_add(prev[j + 1]) {
                Some(c) => next.push(c),
                None => {
                    proof {
                        lemma_binom_monotone(k as nat, n as nat, (j + 1) as nat);
                        assert(binom(n as nat, (j + 1) as nat) > u128::MAX);
                    }
                    return None;
                },
            }
            j = j + 1;
        }
        next.push(1);
        proof {
            lemma_binom_diag(k as nat);
        }
        prev = next;
        k = k + 1;
    }
    proof {
        assert forall|i: nat| i <= n implies #[trigger] binom(n as nat, i) <= u128::MAX by {
            assert(prev@[i as int] == binom(n as nat, i));
        }
    }
    Some(prev)
}

} // verus!
