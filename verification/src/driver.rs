use vstd::prelude::*;
use crate::rule::{rule_spec, is_generation, code_at};
use crate::step::{
    step_spec,
    lemma_is_step,
    zero_fill,
    scratch_buffer,
    simulate,
    simulate_rayon,
    simulate_simd,
};

verus! {

/// The generation reached after `k` rounds: each round applies `step_spec`.
/// A generation shorter than 3 has no interior and passes through unchanged,
/// whatever the round count.
pub open spec fn run_spec(c: Seq<u8>, k: nat) -> Seq<u8>
    decreases k,
{
    if c.len() < 3 || k == 0 {
        c
    } else {
        step_spec(run_spec(c, (k - 1) as nat))
    }
}

/// Rounds never change the length of a generation.
pub proof fn lemma_run_spec_len(c: Seq<u8>, k: nat)
    ensures
        run_spec(c, k).len() == c.len(),
    decreases k,
{
    if !(c.len() < 3 || k == 0) {
        lemma_run_spec_len(c, (k - 1) as nat);
    }
}

/// The selectable host-side computation strategies of the iteration driver.
#[derive(Clone, Copy, Debug, PartialEq, Eq, Structural)]
pub enum Backend {
    Sequential,
    DataParallel,
    Vector,
}

/// Iteration driver over the sequential stepper: double-buffers `iterations`
/// rounds, zeroing the scratch buffer before each round, stepping over the
/// full interior range in natural order, then swapping buffer roles.
pub fn run_sequential(initial: Vec<u8>, iterations: usize) -> (result: Vec<u8>)
    requires
        is_generation(initial@),
    ensures
        result@ == run_spec(initial@, iterations as nat),
{
    let ghost c0 = initial@;
    let n = initial.len();
    if n < 3 {
        return initial;
    }
    let mut indices: Vec<usize> = Vec::new();
    let mut v: usize = 1;
    while v <= n - 2
        invariant
            3 <= n,
            1 <= v <= n - 1,
            indices@.len() == v - 1,
            forall|j: int| 0 <= j < indices@.len() ==> indices@[j] == j + 1,
        decreases n - v,
    {
        indices.push(v);
        v += 1;
    }
    let mut current = initial;
    let mut scratch = scratch_buffer(n);
    let mut r: usize = 0;
    while r < iterations
        invariant
            r <= iterations,
            3 <= n,
            c0.len() == n,
            current@.len() == n,
            scratch@.len() == n,
            is_generation(current@),
            current@ == run_spec(c0, r as nat),
            indices@.len() == n - 2,
            forall|j: int| 0 <= j < indices@.len() ==> indices@[j] == j + 1,
        decreases iterations - r,
    {
        zero_fill(&mut scratch);
        simulate(&current, &mut scratch, &indices);
        proof {
            assert forall|i: int| 1 <= i && i + 1 < n implies #[trigger] indices@.contains(
                i as usize,
            ) by {
                assert(indices@[i - 1] == i);
            }
            assert forall|i: int|
                0 <= i < n && !(1 <= i && i + 1 < n) implies !(#[trigger] indices@.contains(
                i as usize,
            )) by {
                if indices@.contains(i as usize) {
                    let j = choose|j: int|
                        0 <= j < indices@.len() && indices@[j] == i as usize;
                    assert(indices@[j] == j + 1);
                }
            }
            lemma_is_step(current@, scratch@);
        }
        let tmp = current;
        current = scratch;
        scratch = tmp;
        r += 1;
    }
    current
}

/// Iteration driver over the data-parallel stepper: the same double-buffered
/// round loop, with each round's interior computed by `simulate_rayon`.
pub fn run_rayon(initial: Vec<u8>, iterations: usize) -> (result: Vec<u8>)
    requires
        is_generation(initial@),
    ensures
        result@ == run_spec(initial@, iterations as nat),
{
    let ghost c0 = initial@;
    let n = initial.len();
    if n < 3 {
        return initial;
    }
    let mut current = initial;
    let mut scratch = scratch_buffer(n);
    let mut r: usize = 0;
    while r < iterations
        invariant
            r <= iterations,
            3 <= n,
            c0.len() == n,
            current@.len() == n,
            scratch@.len() == n,
            is_generation(current@),
            current@ == run_spec(c0, r as nat),
        decreases iterations - r,
    {
        zero_fill(&mut scratch);
        simulate_rayon(&current, &mut scratch);
        proof {
            lemma_is_step(current@, scratch@);
        }
        let tmp = current;
        current = scratch;
        scratch = tmp;
        r += 1;
    }
    current
}

/// Iteration driver over the vector stepper: the same double-buffered round
/// loop, with each round's interior computed in `LANES`-wide batches plus a
/// scalar tail by `simulate_simd`.
pub fn run_simd(initial: Vec<u8>, iterations: usize) -> (result: Vec<u8>)
    requires
        is_generation(initial@),
    ensures
        result@ == run_spec(initial@, iterations as nat),
{
    let ghost c0 = initial@;
    let n = initial.len();
    if n < 3 {
        return initial;
    }
    let mut current = initial;
    let mut scratch = scratch_buffer(n);
    let mut r: usize = 0;
    while r < iterations
        invariant
            r <= iterations,
            3 <= n,
            c0.len() == n,
            current@.len() == n,
            scratch@.len() == n,
            is_generation(current@),
            current@ == run_spec(c0, r as nat),
        decreases iterations - r,
    {
        zero_fill(&mut scratch);
        simulate_simd(&current, &mut scratch);
        proof {
            lemma_is_step(current@, scratch@);
        }
        let tmp = current;
        current = scratch;
        scratch = tmp;
        r += 1;
    }
    current
}

/// Backend-agnostic entry: every host-side backend returns the same final
/// generation, `run_spec(initial, iterations)`, whichever strategy computes
/// it.
pub fn run_simulation(initial: Vec<u8>, iterations: usize, backend: Backend) -> (result: Vec<u8>)
    requires
        is_generation(initial@),
    ensures
        result@ == run_spec(initial@, iterations as nat),
{
    match backend {
        Backend::Sequential => run_sequential(initial, iterations),
        Backend::DataParallel => run_rayon(initial, iterations),
        Backend::Vector => run_simd(initial, iterations),
    }
}

/// The number of live cells in a generation.
pub open spec fn count_ones(c: Seq<u8>) -> nat
    decreases c.len(),
{
    if c.len() == 0 {
        0
    } else {
        count_ones(c.drop_last()) + if c.last() == 1 {
            1nat
        } else {
            0nat
        }
    }
}

/// Population counter: the number of cells of the generation equal to 1, the
/// one externally observed result of a run.
pub fn population(gen: &Vec<u8>) -> (count: usize)
    ensures
        count == count_ones(gen@),
{
    let n = gen.len();
    let mut count: usize = 0;
    let mut j: usize = 0;
    while j < n
        invariant
            j <= n,
            n == gen@.len(),
            count <= j,
            count == count_ones(gen@.take(j as int)),
        decreases n - j,
    {
        if gen[j] == 1 {
            count += 1;
        }
        j += 1;
        proof {
            assert(gen@.take(j as int).drop_last() =~= gen@.take(j - 1));
            assert(gen@.take(j as int).last() == gen@[j - 1]);
        }
    }
    proof {
        assert(gen@.take(n as int) =~= gen@);
    }
    count
}

} // verus!
