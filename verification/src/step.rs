use vstd::prelude::*;
use rayon::iter::{IndexedParallelIterator, IntoParallelRefMutIterator, ParallelIterator};
use crate::rule::{rule_spec, is_generation, code_at, apply_rule, next_cell};

verus! {

/// One full round over a generation: every interior cell takes the rule
/// value of its neighborhood code, and the two boundary cells are 0.
pub open spec fn step_spec(c: Seq<u8>) -> Seq<u8> {
    Seq::new(
        c.len(),
        |i: int|
            if 1 <= i && i + 1 < c.len() {
                rule_spec(code_at(c, i))
            } else {
                0u8
            },
    )
}

/// A buffer that holds the rule value at every interior index and 0 at every
/// other index is exactly one `step_spec` round, whichever stepper filled it,
/// and is again a generation.
pub proof fn lemma_is_step(prev: Seq<u8>, next: Seq<u8>)
    requires
        next.len() == prev.len(),
        3 <= prev.len(),
        forall|i: int| 1 <= i && i + 1 < prev.len() ==> next[i] == rule_spec(code_at(prev, i)),
        forall|i: int| 0 <= i < prev.len() && !(1 <= i && i + 1 < prev.len()) ==> next[i] == 0,
    ensures
        next == step_spec(prev),
        is_generation(next),
{
    assert(next =~= step_spec(prev));
}

/// Overwrites every cell of `buf` with 0, so unwritten slots of a round's
/// output buffer are deterministically dead.
pub fn zero_fill(buf: &mut Vec<u8>)
    ensures
        final(buf)@.len() == old(buf)@.len(),
        forall|i: int| 0 <= i < final(buf)@.len() ==> final(buf)@[i] == 0,
{
    let n = buf.len();
    let mut j: usize = 0;
    while j < n
        invariant
            j <= n,
            buf@.len() == n,
            forall|i: int| 0 <= i < j ==> buf@[i] == 0,
        decreases n - j,
    {
        buf.set(j, 0);
        j += 1;
    }
}

/// Allocates a zero-filled buffer of length `n`, ready to take a round's
/// output.
pub fn scratch_buffer(n: usize) -> (buf: Vec<u8>)
    ensures
        buf@.len() == n,
        forall|i: int| 0 <= i < n ==> buf@[i] == 0,
{
    let mut buf: Vec<u8> = Vec::new();
    let mut j: usize = 0;
    while j < n
        invariant
            j <= n,
            buf@.len() == j,
            forall|i: int| 0 <= i < j ==> buf@[i] == 0,
        decreases n - j,
    {
        buf.push(0);
        j += 1;
    }
    buf
}

/// Sequential stepper: given the previous generation and an explicit list of
/// target interior indices, writes the rule value of each target's
/// neighborhood code into `out` at that target, touching no other entry.
pub fn simulate(input: &Vec<u8>, out: &mut Vec<u8>, indices: &Vec<usize>)
    requires
        is_generation(input@),
        old(out)@.len() == input@.len(),
        forall|j: int|
            0 <= j < indices@.len() ==> 1 <= indices@[j] && indices@[j] + 1 < input@.len(),
    ensures
        final(out)@.len() == old(out)@.len(),
        forall|i: int|
            0 <= i < final(out)@.len() && indices@.contains(i as usize) ==> final(out)@[i]
                == rule_spec(code_at(input@, i)),
        forall|i: int|
            0 <= i < final(out)@.len() && !indices@.contains(i as usize) ==> final(out)@[i]
                == old(out)@[i],
{
    let ghost out0 = out@;
    let n = input.len();
    let m = indices.len();
    let mut k: usize = 0;
    while k < m
        invariant
            k <= m,
            m == indices@.len(),
            n == input@.len(),
            is_generation(input@),
            out@.len() == input@.len(),
            out0.len() == input@.len(),
            forall|j: int|
                0 <= j < indices@.len() ==> 1 <= indices@[j] && indices@[j] + 1 < input@.len(),
            forall|i: int|
                0 <= i < out@.len() && (exists|j: int| 0 <= j < k && indices@[j] == i as usize)
                    ==> out@[i] == rule_spec(code_at(input@, i)),
            forall|i: int|
                0 <= i < out@.len() && !(exists|j: int| 0 <= j < k && indices@[j] == i as usize)
                    ==> out@[i] == out0[i],
        decreases m - k,
    {
        let idx = indices[k];
        let v = next_cell(input, idx - 1);
        let ghost prev = out@;
        out.set(idx, v);
        proof {
            assert forall|i: int|
                0 <= i < out@.len() && (exists|j: int|
                    0 <= j < k + 1 && indices@[j] == i as usize) implies out@[i] == rule_spec(
                code_at(input@, i),
            ) by {
                if i != idx {
                    let j = choose|j: int| 0 <= j < k + 1 && indices@[j] == i as usize;
                    assert(j < k);
                    assert(prev[i] == rule_spec(code_at(input@, i)));
                }
            }
            assert forall|i: int|
                0 <= i < out@.len() && !(exists|j: int|
                    0 <= j < k + 1 && indices@[j] == i as usize) implies out@[i] == out0[i] by {
                assert(indices@[k as int] == idx);
                assert(i != idx);
                assert(!(exists|j: int| 0 <= j < k && indices@[j] == i as usize));
            }
        }
        k += 1;
    }
    proof {
        assert forall|i: int|
            0 <= i < out@.len() && indices@.contains(i as usize) implies out@[i] == rule_spec(
            code_at(input@, i),
        ) by {
            let j = choose|j: int| 0 <= j < indices@.len() && indices@[j] == i as usize;
            assert(0 <= j < k && indices@[j] == i as usize);
        }
        assert forall|i: int|
            0 <= i < out@.len() && !indices@.contains(i as usize) implies out@[i] == out0[i] by {
            assert(!(exists|j: int| 0 <= j < k && indices@[j] == i as usize));
        }
    }
}

/// Relies on rayon's `par_iter_mut`/`enumerate`/`for_each` over the slice
/// `out[1..=end]`: `for_each` applies the closure to every slice element
/// exactly once, `enumerate` hands each element its offset within the slice,
/// and each element is written only by its own closure call. Every element is
/// set to the value of the verified `next_cell` at its offset.
#[verifier::external_body]
fn par_step_interior(input: &Vec<u8>, out: &mut Vec<u8>, end: usize)
    requires
        is_generation(input@),
        old(out)@.len() == input@.len(),
        3 <= input@.len(),
        end + 2 == input@.len(),
    ensures
        final(out)@.len() == old(out)@.len(),
        forall|i: int|
            1 <= i && i + 1 < input@.len() ==> final(out)@[i] == rule_spec(code_at(input@, i)),
        forall|i: int|
            0 <= i < input@.len() && !(1 <= i && i + 1 < input@.len()) ==> final(out)@[i] == old(
                out,
            )@[i],
{
    out[1..=end].par_iter_mut().enumerate().for_each(
        |(off, cell): (usize, &mut u8)|
            {
                *cell = next_cell(input, off);
            },
    );
}

/// Data-parallel stepper: one round over the whole interior range
/// `1 ..= n-2` in natural order, partitioned across a thread pool. Workers
/// read only the previous generation and write disjoint slots of `out`, so
/// the round equals the sequential stepper's on the natural index order.
pub fn simulate_rayon(input: &Vec<u8>, out: &mut Vec<u8>)
    requires
        is_generation(input@),
        old(out)@.len() == input@.len(),
        3 <= input@.len(),
    ensures
        final(out)@.len() == old(out)@.len(),
        forall|i: int|
            1 <= i && i + 1 < input@.len() ==> final(out)@[i] == rule_spec(code_at(input@, i)),
        forall|i: int|
            0 <= i < input@.len() && !(1 <= i && i + 1 < input@.len()) ==> final(out)@[i] == old(
                out,
            )@[i],
{
    let end = input.len() - 2;
    par_step_interior(input, out, end);
}

/// Lane width of one vector batch.
pub const LANES: usize = 16;

/// Vector stepper: computes the interior in fixed batches of `LANES` cells —
/// three overlapping windows per batch, lanewise neighborhood codes, a
/// lanewise compare against the dead codes, a lanewise select — and finishes
/// the remaining `(n-2) % LANES` cells one at a time with the same rule.
/// Generations shorter than 3 are copied through unchanged.
pub fn simulate_simd(input: &Vec<u8>, out: &mut Vec<u8>)
    requires
        is_generation(input@),
        old(out)@.len() == input@.len(),
    ensures
        final(out)@.len() == old(out)@.len(),
        input@.len() < 3 ==> final(out)@ == input@,
        3 <= input@.len() ==> forall|i: int|
            1 <= i && i + 1 < input@.len() ==> final(out)@[i] == rule_spec(code_at(input@, i)),
        3 <= input@.len() ==> forall|i: int|
            0 <= i < input@.len() && !(1 <= i && i + 1 < input@.len()) ==> final(out)@[i] == old(
                out,
            )@[i],
{
    let ghost out0 = out@;
    let n = input.len();
    if n < 3 {
        let mut j: usize = 0;
        while j < n
            invariant
                j <= n,
                n == input@.len(),
                out@.len() == n,
                forall|q: int| 0 <= q < j ==> out@[q] == input@[q],
            decreases n - j,
        {
            out.set(j, input[j]);
            j += 1;
        }
        proof {
            assert(out@ =~= input@);
        }
        return ;
    }
    let mut i: usize = 1;
    while LANES <= (n - 1) - i
        invariant
            1 <= i <= n - 1,
            3 <= n,
            n == input@.len(),
            out@.len() == n,
            out0.len() == n,
            is_generation(input@),
            forall|q: int| 1 <= q < i ==> out@[q] == rule_spec(code_at(input@, q)),
            forall|q: int| 0 <= q < n && !(1 <= q < i) ==> out@[q] == out0[q],
        decreases n - i,
    {
        let mut lane: usize = 0;
        while lane < LANES
            invariant
                lane <= LANES,
                1 <= i,
                i + LANES <= n - 1,
                n == input@.len(),
                out@.len() == n,
                out0.len() == n,
                is_generation(input@),
                forall|q: int| 1 <= q < i + lane ==> out@[q] == rule_spec(code_at(input@, q)),
                forall|q: int| 0 <= q < n && !(1 <= q < i + lane) ==> out@[q] == out0[q],
            decreases LANES - lane,
        {
            let j = i + lane;
            let left = input[j - 1];
            let mid = input[j];
            let right = input[j + 1];
            let cc = 4 * left + 2 * mid + right;
            let dead = cc == 7 || cc == 4 || cc == 0;
            let v: u8 = if dead {
                0
            } else {
                1
            };
            out.set(j, v);
            lane += 1;
        }
        i += LANES;
    }
    let mut j = i;
    while j < n - 1
        invariant
            1 <= j <= n - 1,
            3 <= n,
            n == input@.len(),
            out@.len() == n,
            out0.len() == n,
            is_generation(input@),
            forall|q: int| 1 <= q < j ==> out@[q] == rule_spec(code_at(input@, q)),
            forall|q: int| 0 <= q < n && !(1 <= q < j) ==> out@[q] == out0[q],
        decreases n - j,
    {
        let cc = 4 * input[j - 1] + 2 * input[j] + input[j + 1];
        let v = apply_rule(cc);
        out.set(j, v);
        j += 1;
    }
}

} // verus!
