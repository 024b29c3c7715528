use vstd::prelude::*;
use crate::rule::{rule_spec, code_at};
use crate::step::{step_spec, lemma_is_step};
use crate::driver::{run_spec, lemma_run_spec_len, count_ones};

verus! {

/// Backend agreement: every host backend's contract fixes its final
/// generation to `run_spec` of the initial generation and the round count,
/// so two results of the same run are equal — and so are their populations —
/// whichever backend computed each.
pub proof fn lemma_backends_agree(c: Seq<u8>, k: nat, a: Seq<u8>, b: Seq<u8>)
    requires
        a == run_spec(c, k),
        b == run_spec(c, k),
    ensures
        a == b,
        count_ones(a) == count_ones(b),
{
}

/// Vector/scalar equivalence: one round's output of the vector stepper and
/// one of the sequential stepper over the full interior agree at every index,
/// for every generation length — so for every residue of the interior length
/// by the lane width, batch lanes and scalar tail included — since both fill
/// a zeroed buffer with exactly `step_spec` of the previous generation.
pub proof fn lemma_vector_matches_sequential(prev: Seq<u8>, vec_out: Seq<u8>, seq_out: Seq<u8>)
    requires
        3 <= prev.len(),
        vec_out.len() == prev.len(),
        seq_out.len() == prev.len(),
        forall|i: int| 1 <= i && i + 1 < prev.len() ==> vec_out[i] == rule_spec(code_at(prev, i)),
        forall|i: int|
            0 <= i < prev.len() && !(1 <= i && i + 1 < prev.len()) ==> vec_out[i] == 0,
        forall|i: int| 1 <= i && i + 1 < prev.len() ==> seq_out[i] == rule_spec(code_at(prev, i)),
        forall|i: int|
            0 <= i < prev.len() && !(1 <= i && i + 1 < prev.len()) ==> seq_out[i] == 0,
    ensures
        vec_out == seq_out,
        vec_out == step_spec(prev),
{
    lemma_is_step(prev, vec_out);
    lemma_is_step(prev, seq_out);
}

/// Boundary invariant: every round writes 0 at index 0 and index `n-1`, so
/// after at least one round the boundary cells of any generation of length at
/// least 3 are dead. (A generation shorter than 3 passes through unchanged,
/// and a zero-round run returns the input itself, so neither is covered.)
pub proof fn lemma_boundary_zero(c: Seq<u8>, k: nat)
    requires
        3 <= c.len(),
        1 <= k,
    ensures
        run_spec(c, k).len() == c.len(),
        run_spec(c, k)[0] == 0,
        run_spec(c, k)[c.len() - 1] == 0,
{
    lemma_run_spec_len(c, k);
    lemma_run_spec_len(c, (k - 1) as nat);
    assert(run_spec(c, k) == step_spec(run_spec(c, (k - 1) as nat)));
}

/// An all-zero generation has neighborhood code 0 at every interior cell,
/// and the rule maps code 0 to 0, so all-zero input of any length stays
/// all-zero after any number of rounds.
pub proof fn lemma_all_zero(c: Seq<u8>, k: nat)
    requires
        forall|i: int| 0 <= i < c.len() ==> c[i] == 0,
    ensures
        run_spec(c, k).len() == c.len(),
        forall|i: int| 0 <= i < c.len() ==> run_spec(c, k)[i] == 0,
    decreases k,
{
    lemma_run_spec_len(c, k);
    if !(c.len() < 3 || k == 0) {
        lemma_all_zero(c, (k - 1) as nat);
        let prev = run_spec(c, (k - 1) as nat);
        lemma_run_spec_len(c, (k - 1) as nat);
        assert forall|i: int| 0 <= i < c.len() implies run_spec(c, k)[i] == 0 by {
            if 1 <= i && i + 1 < c.len() {
                assert(code_at(prev, i) == 0);
            }
        }
    }
}

/// An all-zero generation has no live cells, so its population is 0 after
/// any number of rounds.
pub proof fn lemma_all_zero_population(c: Seq<u8>, k: nat)
    requires
        forall|i: int| 0 <= i < c.len() ==> c[i] == 0,
    ensures
        count_ones(run_spec(c, k)) == 0,
{
    lemma_all_zero(c, k);
    lemma_count_ones_zero(run_spec(c, k));
}

/// A generation without live cells counts to 0.
proof fn lemma_count_ones_zero(c: Seq<u8>)
    requires
        forall|i: int| 0 <= i < c.len() ==> c[i] == 0,
    ensures
        count_ones(c) == 0,
    decreases c.len(),
{
    if c.len() > 0 {
        lemma_count_ones_zero(c.drop_last());
    }
}

} // verus!
