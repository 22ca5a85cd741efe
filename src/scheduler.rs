use vstd::prelude::*;
use vstd::arithmetic::div_mod::{lemma_fundamental_div_mod, lemma_fundamental_div_mod_converse, lemma_mod_bound, lemma_div_pos_is_pos};
use vstd::arithmetic::mul::lemma_mul_inequality;

verus! {

/// How many of the iteration indices `0..iterations` the round-robin
/// partition over `workers` workers hands to worker `w`: the indices
/// `w, w + workers, w + 2·workers, ...` that lie below `iterations`.
pub open spec fn assigned_count(w: int, iterations: int, workers: int) -> int {
    if 0 <= w < iterations && workers > 0 {
        (iterations - w - 1) / workers + 1
    } else {
        0
    }
}

/// The iteration indices that worker `w` runs, in the order it runs them.
pub open spec fn round_robin(w: int, iterations: int, workers: int) -> Seq<u32> {
    Seq::new(assigned_count(w, iterations, workers) as nat, |j: int| (w + j * workers) as u32)
}

/// The number of iterations each worker performs under the round-robin partition.
pub open spec fn schedule_counts(iterations: int, workers: int) -> Seq<u32> {
    Seq::new(workers as nat, |w: int| assigned_count(w, iterations, workers) as u32)
}

/// Sum of a sequence of iteration counts.
pub open spec fn seq_total(s: Seq<u32>) -> int
    decreases s.len(),
{
    if s.len() == 0 {
        0
    } else {
        seq_total(s.drop_last()) + s.last()
    }
}

/// Indices of the workers that performed at least one iteration, in increasing order.
pub open spec fn used_workers_of(counts: Seq<u32>) -> Seq<usize>
    decreases counts.len(),
{
    if counts.len() == 0 {
        Seq::empty()
    } else {
        let prefix = used_workers_of(counts.drop_last());
        if counts.last() > 0 {
            prefix.push((counts.len() - 1) as usize)
        } else {
            prefix
        }
    }
}

/// The smaller of two integers.
pub open spec fn min_int(a: int, b: int) -> int {
    if a <= b {
        a
    } else {
        b
    }
}

/// Why a run cannot produce an image.
#[derive(Clone, Copy, Debug, PartialEq, Eq, Structural)]
pub enum RunError {
    /// No worker performed a single iteration, so there is nothing to average.
    NoWorkerUsed,
}

proof fn lemma_div_facts(x: int, n: int)
    requires
        x >= 0,
        n > 0,
    ensures
        x == n * (x / n) + x % n,
        0 <= x % n < n,
        0 <= x / n <= x,
        (x / n) * n <= x,
{
    lemma_fundamental_div_mod(x, n);
    lemma_mod_bound(x, n);
    lemma_div_pos_is_pos(x, n);
    let q = x / n;
    assert(n * q >= q) by (nonlinear_arith)
        requires
            n >= 1,
            q >= 0,
    ;
    assert(q * n == n * q) by (nonlinear_arith);
}

/// A worker is given at most as many indices as there are iterations.
proof fn lemma_count_bound(w: int, iterations: int, workers: int)
    requires
        iterations >= 0,
    ensures
        0 <= assigned_count(w, iterations, workers) <= iterations,
{
    if 0 <= w < iterations && workers > 0 {
        lemma_div_facts(iterations - w - 1, workers);
    }
}

/// The count of worker `w < workers`, written with the quotient and remainder
/// of `iterations` by `workers`.
proof fn lemma_count_by_quotient(w: int, iterations: int, workers: int)
    requires
        0 <= w < workers,
        iterations >= 0,
    ensures
        assigned_count(w, iterations, workers) == iterations / workers + (if w < iterations
            % workers {
            1int
        } else {
            0int
        }),
{
    let n = workers;
    let q = iterations / n;
    let r = iterations % n;
    lemma_div_facts(iterations, n);
    assert(iterations == q * n + r) by (nonlinear_arith)
        requires
            iterations == n * q + r,
    ;
    if w < iterations {
        if w < r {
            let x = iterations - w - 1;
            assert(x == q * n + (r - w - 1));
            lemma_fundamental_div_mod_converse(x, n, q, r - w - 1);
        } else {
            assert(q >= 1) by (nonlinear_arith)
                requires
                    iterations == q * n + r,
                    w < iterations,
                    w >= r,
                    w < n,
                    q >= 0,
            ;
            let x = iterations - w - 1;
            assert(x == (q - 1) * n + (n + r - w - 1)) by (nonlinear_arith)
                requires
                    x == iterations - w - 1,
                    iterations == q * n + r,
            ;
            lemma_fundamental_div_mod_converse(x, n, q - 1, n + r - w - 1);
        }
    } else {
        assert(q == 0) by (nonlinear_arith)
            requires
                iterations == q * n + r,
                iterations <= w,
                w < n,
                n > 0,
                q >= 0,
                r >= 0,
        ;
    }
}

proof fn lemma_total_prefix(iterations: int, workers: int, m: int)
    requires
        iterations >= 0,
        workers > 0,
        0 <= m <= workers,
        iterations <= u32::MAX,
    ensures
        seq_total(schedule_counts(iterations, workers).subrange(0, m)) == m * (iterations
            / workers) + min_int(m, iterations % workers),
    decreases m,
{
    let counts = schedule_counts(iterations, workers);
    let q = iterations / workers;
    if m == 0 {
        assert(counts.subrange(0, 0).len() == 0);
        assert(0 * q == 0) by (nonlinear_arith);
    } else {
        lemma_total_prefix(iterations, workers, m - 1);
        let s = counts.subrange(0, m);
        assert(s.drop_last() =~= counts.subrange(0, m - 1));
        lemma_count_bound(m - 1, iterations, workers);
        lemma_count_by_quotient(m - 1, iterations, workers);
        assert(s.last() == assigned_count(m - 1, iterations, workers));
        assert(m * q == (m - 1) * q + q) by (nonlinear_arith);
    }
}

proof fn lemma_used_prefix(iterations: int, workers: int, m: int)
    requires
        iterations >= 0,
        workers > 0,
        0 <= m <= workers,
        iterations <= u32::MAX,
    ensures
        used_workers_of(schedule_counts(iterations, workers).subrange(0, m)) =~= Seq::new(
            min_int(m, iterations) as nat,
            |k: int| k as usize,
        ),
    decreases m,
{
    let counts = schedule_counts(iterations, workers);
    if m > 0 {
        lemma_used_prefix(iterations, workers, m - 1);
        let s = counts.subrange(0, m);
        assert(s.drop_last() =~= counts.subrange(0, m - 1));
        lemma_count_bound(m - 1, iterations, workers);
        if m - 1 < iterations {
            lemma_div_pos_is_pos(iterations - m, workers);
        }
    }
}

/// Under the round-robin partition of `iterations` indices over `workers`
/// workers, every index below `iterations` is run exactly once, by worker
/// `i % workers` as its `(i / workers)`-th iteration; the workers together
/// perform exactly `iterations` iterations; and the workers that perform at
/// least one are exactly the first `min(workers, iterations)` of them.
pub proof fn lemma_round_robin_run(iterations: u32, workers: usize)
    requires
        workers > 0,
    ensures
        forall|i: int|
            #![trigger round_robin(i % (workers as int), iterations as int, workers as int)]
            0 <= i < iterations ==> {
                let s = round_robin(i % (workers as int), iterations as int, workers as int);
                &&& i / (workers as int) < s.len()
                &&& s[i / (workers as int)] == i
            },
        forall|w: int, j: int|
            0 <= w < workers && 0 <= j < assigned_count(w, iterations as int, workers as int)
                ==> {
                let v = #[trigger] round_robin(w, iterations as int, workers as int)[j];
                &&& v < iterations
                &&& v as int % (workers as int) == w
            },
        seq_total(schedule_counts(iterations as int, workers as int)) == iterations,
        used_workers_of(schedule_counts(iterations as int, workers as int)) =~= Seq::new(
            min_int(workers as int, iterations as int) as nat,
            |k: int| k as usize,
        ),
{
    let it = iterations as int;
    let n = workers as int;
    let counts = schedule_counts(it, n);
    assert(counts.subrange(0, n) =~= counts);
    lemma_total_prefix(it, n, n);
    lemma_div_facts(it, n);
    assert(n * (it / n) == (it / n) * n) by (nonlinear_arith);
    lemma_used_prefix(it, n, n);
    assert forall|i: int|
        #![trigger round_robin(i % n, it, n)]
        0 <= i < it implies {
            let s = round_robin(i % n, it, n);
            &&& i / n < s.len()
            &&& s[i / n] == i
        } by {
        let w = i % n;
        let j = i / n;
        lemma_div_facts(i, n);
        assert(j * n + w == i) by (nonlinear_arith)
            requires
                i == n * j + w,
        ;
        let x = it - w - 1;
        assert(j * n <= x);
        lemma_div_facts(x, n);
        // j * n <= x implies j <= x / n
        if j > x / n {
            lemma_mul_inequality(x / n + 1, j, n);
            assert((x / n + 1) * n == (x / n) * n + n) by (nonlinear_arith);
            assert(x < (x / n) * n + n) by (nonlinear_arith)
                requires
                    x == n * (x / n) + x % n,
                    x % n < n,
            ;
        }
        lemma_count_bound(w, it, n);
    }
    assert forall|w: int, j: int|
        0 <= w < workers && 0 <= j < assigned_count(w, it, n) implies {
            let v = #[trigger] round_robin(w, it, n)[j];
            &&& v < iterations
            &&& v as int % n == w
        } by {
        let x = it - w - 1;
        lemma_div_facts(x, n);
        lemma_mul_inequality(j, x / n, n);
        lemma_fundamental_div_mod_converse(w + j * n, n, j, w);
    }
}

/// The iteration indices that worker `worker` runs when `iterations`
/// iterations are shared round-robin among `workers` workers:
/// `worker, worker + workers, ...`, below `iterations`.
pub fn worker_iterations(worker: usize, iterations: u32, workers: usize) -> (r: Vec<u32>)
    requires
        worker < workers,
    ensures
        r@ == round_robin(worker as int, iterations as int, workers as int),
{
    let mut r: Vec<u32> = Vec::new();
    if (worker as u64) < (iterations as u64) {
        let ghost it = iterations as int;
        let n: u64 = workers as u64;
        let w: u64 = worker as u64;
        let x: u64 = iterations as u64 - w - 1;
        proof {
            lemma_div_facts(x as int, n as int);
        }
        let count: u64 = x / n + 1;
        let mut j: u64 = 0;
        while j < count
            invariant
                j <= count,
                count == assigned_count(w as int, it, n as int),
                count == x / n + 1,
                x == it - w - 1,
                it == iterations,
                n == workers,
                w == worker,
                n > 0,
                (x / n) * n <= x,
                r@.len() == j,
                forall|i: int| 0 <= i < j ==> #[trigger] r@[i] == #[verifier::truncate] ((w + i * n) as u32),
            decreases count - j,
        {
            proof {
                lemma_mul_inequality(j as int, (x / n) as int, n as int);
                assert(j * n <= x);
                assert(w + x < u32::MAX);
            }
            let v: u64 = w + j * n;
            r.push(v as u32);
            j = j + 1;
        }
        assert(r@ =~= round_robin(worker as int, iterations as int, workers as int));
    } else {
        assert(r@ =~= round_robin(worker as int, iterations as int, workers as int));
    }
    r
}

/// The complete round-robin partition: entry `w` lists the iteration indices
/// that worker `w` runs.
pub fn iteration_schedule(iterations: u32, workers: usize) -> (r: Vec<Vec<u32>>)
    ensures
        r@.len() == workers,
        forall|w: int|
            0 <= w < workers ==> #[trigger] r@[w]@ == round_robin(
                w,
                iterations as int,
                workers as int,
            ),
{
    let mut r: Vec<Vec<u32>> = Vec::new();
    let mut w: usize = 0;
    while w < workers
        invariant
            w <= workers,
            r@.len() == w,
            forall|k: int|
                0 <= k < w ==> #[trigger] r@[k]@ == round_robin(
                    k,
                    iterations as int,
                    workers as int,
                ),
        decreases workers - w,
    {
        let list = worker_iterations(w, iterations, workers);
        r.push(list);
        w = w + 1;
    }
    r
}

/// The workers whose framebuffers enter the final average: those that
/// performed at least one iteration, in increasing order.  Fails when no
/// worker did, since an average over no image is undefined.
pub fn merge_plan(iteration_counts: &Vec<u32>) -> (r: Result<Vec<usize>, RunError>)
    ensures
        match r {
            Ok(used) => used@ == used_workers_of(iteration_counts@) && used@.len() > 0,
            Err(e) => e == RunError::NoWorkerUsed && used_workers_of(iteration_counts@).len()
                == 0,
        },
{
    let mut used: Vec<usize> = Vec::new();
    let mut i: usize = 0;
    while i < iteration_counts.len()
        invariant
            i <= iteration_counts@.len(),
            used@ == used_workers_of(iteration_counts@.subrange(0, i as int)),
        decreases iteration_counts@.len() - i,
    {
        proof {
            let s = iteration_counts@.subrange(0, i as int + 1);
            assert(s.drop_last() =~= iteration_counts@.subrange(0, i as int));
        }
        if iteration_counts[i] > 0 {
            used.push(i);
        }
        i = i + 1;
    }
    assert(iteration_counts@.subrange(0, i as int) =~= iteration_counts@);
    if used.len() == 0 {
        Err(RunError::NoWorkerUsed)
    } else {
        Ok(used)
    }
}

/// The seed of worker `worker`'s random stream: the run's base seed offset
/// by the worker's index.
pub fn worker_seed(base_seed: u32, worker: u32) -> (r: u32)
    requires
        base_seed + worker <= u32::MAX,
    ensures
        r == base_seed + worker,
{
    base_seed + worker
}

} // verus!
