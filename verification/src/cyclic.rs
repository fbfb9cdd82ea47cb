use vstd::prelude::*;

verus! {

/// The position `k` steps from `start` on a ring of `n` positions, moving forward
/// (increasing, wrapping from the last to the first) or backward.
pub open spec fn cycled(start: int, k: int, n: int, forward: bool) -> int {
    if forward {
        (start + k) % n
    } else {
        (start - k) % n
    }
}

/// One step on the ring: the cycled position from `start` after `k + 1` steps is one step
/// from the position after `k` steps.
pub proof fn lemma_cycled_step(start: int, k: int, n: int, forward: bool)
    requires
        n > 0,
    ensures
        cycled(start, k + 1, n, forward) == cycled(cycled(start, k, n, forward), 1, n, forward),
        0 <= cycled(start, k, n, forward) < n,
{
    vstd::arithmetic::div_mod::lemma_mod_bound(start + k, n);
    vstd::arithmetic::div_mod::lemma_mod_bound(start - k, n);
    let x = if forward {
        start + k
    } else {
        start - k
    };
    vstd::arithmetic::div_mod::lemma_mod_twice(x, n);
    if forward {
        vstd::arithmetic::div_mod::lemma_add_mod_noop(x, 1, n);
        vstd::arithmetic::div_mod::lemma_add_mod_noop(x % n, 1, n);
        assert(x + 1 == start + (k + 1));
    } else {
        vstd::arithmetic::div_mod::lemma_sub_mod_noop(x, 1, n);
        vstd::arithmetic::div_mod::lemma_sub_mod_noop(x % n, 1, n);
        assert(x - 1 == start - (k + 1));
    }
}

/// A full turn around the ring comes back to the start.
pub proof fn lemma_cycled_full(start: int, n: int, forward: bool)
    requires
        0 <= start < n,
    ensures
        cycled(start, n, n, forward) == start,
        cycled(start, 0, n, forward) == start,
{
    vstd::arithmetic::div_mod::lemma_small_mod(start as nat, n as nat);
    vstd::arithmetic::div_mod::lemma_mod_add_multiples_vanish(start, n);
    vstd::arithmetic::div_mod::lemma_mod_sub_multiples_vanish(start, n);
}

/// One step from `i` on a ring of `n` positions.
pub fn step_index(i: usize, n: usize, forward: bool) -> (next: usize)
    requires
        i < n,
    ensures
        next == cycled(i as int, 1, n as int, forward),
        next < n,
{
    proof {
        lemma_cycled_step(i as int, 0, n as int, forward);
        lemma_cycled_full(i as int, n as int, forward);
        vstd::arithmetic::div_mod::lemma_mod_bound(i + 1, n as int);
        vstd::arithmetic::div_mod::lemma_mod_bound(i - 1, n as int);
    }
    if forward {
        if i + 1 == n {
            proof {
                vstd::arithmetic::div_mod::lemma_mod_self_0(n as int);
            }
            0
        } else {
            proof {
                vstd::arithmetic::div_mod::lemma_small_mod((i + 1) as nat, n as nat);
            }
            i + 1
        }
    } else {
        if i == 0 {
            proof {
                vstd::arithmetic::div_mod::lemma_mod_add_multiples_vanish(-1, n as int);
                vstd::arithmetic::div_mod::lemma_small_mod((n - 1) as nat, n as nat);
            }
            n - 1
        } else {
            proof {
                vstd::arithmetic::div_mod::lemma_small_mod((i - 1) as nat, n as nat);
            }
            i - 1
        }
    }
}

/// A step one way and a step back return to where they started.
pub proof fn lemma_cycled_back(k: int, n: int, forward: bool)
    requires
        0 <= k < n,
    ensures
        cycled(cycled(k, 1, n, forward), 1, n, !forward) == k,
{
    if k + 1 < n {
        vstd::arithmetic::div_mod::lemma_small_mod((k + 1) as nat, n as nat);
    } else {
        vstd::arithmetic::div_mod::lemma_mod_self_0(n);
    }
    if k > 0 {
        vstd::arithmetic::div_mod::lemma_small_mod((k - 1) as nat, n as nat);
    } else {
        vstd::arithmetic::div_mod::lemma_mod_add_multiples_vanish(-1, n);
        vstd::arithmetic::div_mod::lemma_small_mod((n - 1) as nat, n as nat);
    }
    vstd::arithmetic::div_mod::lemma_small_mod(k as nat, n as nat);
    if forward {
        if k + 1 == n {
            vstd::arithmetic::div_mod::lemma_mod_add_multiples_vanish(-1, n);
            vstd::arithmetic::div_mod::lemma_small_mod((n - 1) as nat, n as nat);
        }
    } else {
        if k == 0 {
            vstd::arithmetic::div_mod::lemma_mod_self_0(n);
        }
    }
}

} // verus!
