//! Dividing the task-id space `[0, task_count)` among concurrency units.
//!
//! Two interchangeable schemes: strided partitioning (unit `i` owns
//! `i, i + concurrency, i + 2*concurrency, ...`), used by the
//! thread-per-unit runner, and batched partitioning (contiguous batches of
//! a fixed size), used by the cooperative task-pool runner. Both assign
//! every id in range to exactly one unit, computed up front with no
//! coordination between units.

use vstd::prelude::*;
use vstd::arithmetic::div_mod::{
    lemma_div_pos_is_pos, lemma_fundamental_div_mod, lemma_fundamental_div_mod_converse_div,
    lemma_mod_division_less_than_divisor, lemma_mod_multiples_vanish, lemma_small_mod,
};
use vstd::arithmetic::mul::{
    lemma_mul_inequality, lemma_mul_is_commutative, lemma_mul_strict_inequality,
    lemma_mul_strict_inequality_converse,
};

verus! {

/// Under strided partitioning, unit `unit` owns task `t`.
pub open spec fn strided_owns(unit: u64, concurrency: u64, t: u64) -> bool {
    t % concurrency == unit
}

/// Under batched partitioning with batches of `batch_size`, batch `index`
/// owns task `t`.
pub open spec fn batch_owns(index: u64, batch_size: u64, t: u64) -> bool {
    t / batch_size == index
}

/// How many batches of `batch_size` cover `[0, task_count)`.
pub open spec fn spec_batch_count(task_count: u64, batch_size: u64) -> int {
    if task_count % batch_size == 0 {
        task_count as int / batch_size as int
    } else {
        task_count as int / batch_size as int + 1
    }
}

/// The ids unit `unit` drains under strided partitioning, in increasing
/// order: exactly those `t < task_count` with `t % concurrency == unit`.
pub fn strided_tasks(unit: u64, concurrency: u64, task_count: u64) -> (r: Vec<u64>)
    requires
        0 < concurrency,
        unit < concurrency,
    ensures
        forall|k: int| 0 <= k < r@.len() ==> r@[k] == unit + k * concurrency,
        forall|t: u64| r@.contains(t) <==> (t < task_count && strided_owns(unit, concurrency, t)),
        forall|i: int, j: int| 0 <= i < j < r@.len() ==> r@[i] < r@[j],
{
    let mut r: Vec<u64> = Vec::new();
    if unit < task_count {
        let mut j = unit;
        loop
            invariant_except_break
                j < task_count,
                j as int == unit + r@.len() * concurrency,
            invariant
                0 < concurrency,
                unit < concurrency,
                forall|k: int| 0 <= k < r@.len() ==> r@[k] == unit + k * concurrency,
                forall|k: int| 0 <= k < r@.len() ==> r@[k] < task_count,
            ensures
                forall|k: int| 0 <= k < r@.len() ==> r@[k] == unit + k * concurrency,
                forall|k: int| 0 <= k < r@.len() ==> r@[k] < task_count,
                unit + r@.len() * concurrency >= task_count,
            decreases task_count - j,
        {
            let ghost old_len = r@.len();
            r.push(j);
            proof {
                assert(r@[old_len as int] == unit + old_len * concurrency);
                assert((old_len + 1) * concurrency == old_len * concurrency + concurrency)
                    by (nonlinear_arith);
            }
            if concurrency < task_count - j {
                j = j + concurrency;
            } else {
                break;
            }
        }
    }
    proof {
        assert forall|t: u64|
            r@.contains(t) <==> (t < task_count && strided_owns(unit, concurrency, t)) by {
            let c = concurrency as int;
            if r@.contains(t) {
                let k = choose|k: int| 0 <= k < r@.len() && r@[k] == t;
                assert(t == unit + k * c);
                lemma_mul_is_commutative(k, c);
                lemma_mod_multiples_vanish(k, unit as int, c);
                lemma_small_mod(unit as nat, concurrency as nat);
                assert(t % concurrency == unit);
            }
            if t < task_count && strided_owns(unit, concurrency, t) {
                lemma_fundamental_div_mod(t as int, c);
                let k = t as int / c;
                assert(t == c * k + unit);
                assert(k >= 0) by {
                    lemma_div_pos_is_pos(t as int, c);
                };
                assert(k < r@.len()) by {
                    assert(unit + k * c < task_count <= unit + r@.len() * concurrency) by {
                        lemma_mul_is_commutative(k, c);
                    }
                    lemma_mul_strict_inequality_converse(k, r@.len() as int, c);
                };
                assert(r@[k] == t) by {
                    lemma_mul_is_commutative(k, c);
                }
                assert(r@.contains(t));
            }
        }
        assert forall|i: int, j: int| 0 <= i < j < r@.len() implies r@[i] < r@[j] by {
            lemma_mul_strict_inequality(i, j, concurrency as int);
        }
    }
    r
}

/// Every task id below `task_count` is owned by exactly one strided unit,
/// namely `t % concurrency`, and that unit is a valid unit index: the
/// strided subsets are disjoint and exhaust `[0, task_count)`.
pub proof fn lemma_strided_partition_exact(concurrency: u64, task_count: u64, t: u64)
    requires
        0 < concurrency,
        t < task_count,
    ensures
        strided_owns(t % concurrency, concurrency, t),
        t % concurrency < concurrency,
        forall|u: u64| strided_owns(u, concurrency, t) ==> u == t % concurrency,
{
    lemma_mod_division_less_than_divisor(t as int, concurrency as int);
}

/// The half-open range of ids batch `index` drains: exactly those
/// `t < task_count` with `t / batch_size == index`.
pub fn batch_bounds(index: u64, batch_size: u64, task_count: u64) -> (r: (u64, u64))
    requires
        0 < batch_size,
        index * batch_size < task_count,
    ensures
        r.0 == index * batch_size,
        r.0 < r.1 <= task_count,
        forall|t: u64| (r.0 <= t < r.1) <==> (t < task_count && batch_owns(index, batch_size, t)),
{
    let begin = index * batch_size;
    let end = if task_count - begin <= batch_size {
        task_count
    } else {
        begin + batch_size
    };
    proof {
        let b = batch_size as int;
        let i = index as int;
        assert forall|t: u64|
            (begin <= t < end) <==> (t < task_count && batch_owns(index, batch_size, t)) by {
            if begin <= t < end {
                assert(t as int == i * b + (t - begin)) by {
                    lemma_mul_is_commutative(i, b);
                }
                assert(0 <= t - begin < b);
                lemma_fundamental_div_mod_converse_div(t as int, b, i, t - begin);
            }
            if t < task_count && batch_owns(index, batch_size, t) {
                lemma_fundamental_div_mod(t as int, b);
                lemma_mod_division_less_than_divisor(t as int, b);
                assert(t == b * i + t % batch_size);
                lemma_mul_is_commutative(i, b);
                assert(begin <= t < begin + b);
            }
        }
    }
    (begin, end)
}

/// How many batches a run dispatches: the least count whose batches cover
/// `[0, task_count)`.
pub fn batch_count(task_count: u64, batch_size: u64) -> (r: u64)
    requires
        0 < batch_size,
    ensures
        r == spec_batch_count(task_count, batch_size),
        r * batch_size >= task_count,
{
    let q = task_count / batch_size;
    let rem = task_count % batch_size;
    proof {
        lemma_fundamental_div_mod(task_count as int, batch_size as int);
        lemma_mod_division_less_than_divisor(task_count as int, batch_size as int);
        lemma_mul_is_commutative(q as int, batch_size as int);
        if rem != 0 {
            assert((q as int + 1) * batch_size as int == q as int * batch_size as int
                + batch_size as int) by (nonlinear_arith);
            assert(q < task_count) by (nonlinear_arith)
                requires
                    task_count as int == batch_size as int * (q as int) + rem as int,
                    0 < rem,
                    1 <= batch_size,
                    0 <= q,
            ;
        }
    }
    if rem == 0 {
        q
    } else {
        q + 1
    }
}

/// Every task id below `task_count` lies in exactly one batch, namely
/// `t / batch_size`, and that batch index is below the batch count: the
/// batches are disjoint and exhaust `[0, task_count)`.
pub proof fn lemma_batched_partition_exact(batch_size: u64, task_count: u64, t: u64)
    requires
        0 < batch_size,
        t < task_count,
    ensures
        batch_owns(t / batch_size, batch_size, t),
        t / batch_size < spec_batch_count(task_count, batch_size),
        forall|k: u64| batch_owns(k, batch_size, t) ==> k == t / batch_size,
        (t / batch_size) * batch_size < task_count,
{
    let b = batch_size as int;
    let k = t as int / b;
    lemma_fundamental_div_mod(t as int, b);
    lemma_mod_division_less_than_divisor(t as int, b);
    lemma_fundamental_div_mod(task_count as int, b);
    lemma_mod_division_less_than_divisor(task_count as int, b);
    let qn = task_count as int / b;
    assert(t == b * k + t % batch_size);
    assert(task_count == b * qn + task_count % batch_size);
    lemma_mul_is_commutative(k, b);
    assert(k * b < task_count);
    assert(k < spec_batch_count(task_count, batch_size)) by {
        if k >= spec_batch_count(task_count, batch_size) {
            if task_count % batch_size == 0 {
                lemma_mul_inequality(qn, k, b);
                assert(qn * b <= k * b);
                lemma_mul_is_commutative(qn, b);
            } else {
                lemma_mul_inequality(qn + 1, k, b);
                assert((qn + 1) * b == qn * b + b) by (nonlinear_arith);
                lemma_mul_is_commutative(qn, b);
            }
        }
    };
}

} // verus!
