use rule110::driver::{population, run_rayon, run_sequential, run_simd, run_simulation, Backend};
use rule110::rule::apply_rule;
use rule110::step::{scratch_buffer, simulate, simulate_rayon, simulate_simd, LANES};

fn interior_indices(n: usize) -> Vec<usize> {
    if n < 3 {
        Vec::new()
    } else {
        (1..=n - 2).collect()
    }
}

/// A small deterministic bit generator, so the sweeps below are repeatable.
fn pseudo_random_generation(n: usize, seed: u64) -> Vec<u8> {
    let mut state = seed.wrapping_mul(2862933555777941757).wrapping_add(3037000493);
    let mut gen = Vec::with_capacity(n);
    for _ in 0..n {
        state = state.wrapping_mul(6364136223846793005).wrapping_add(1442695040888963407);
        gen.push(((state >> 33) & 1) as u8);
    }
    gen
}

#[test]
fn rule_table() {
    let expected = [0u8, 1, 1, 1, 0, 1, 1, 0];
    for code in 0u8..=7 {
        assert_eq!(apply_rule(code), expected[code as usize]);
    }
}

#[test]
fn one_round_example() {
    let input = vec![0u8, 1, 1, 1, 0];
    let expected = vec![0u8, 1, 0, 1, 0];
    assert_eq!(run_sequential(input.clone(), 1), expected);
    assert_eq!(run_rayon(input.clone(), 1), expected);
    assert_eq!(run_simd(input.clone(), 1), expected);
    assert_eq!(population(&expected), 2);
}

#[test]
fn backends_agree() {
    for n in 3..40usize {
        let input = pseudo_random_generation(n, n as u64);
        for rounds in [0usize, 1, 5] {
            let a = run_sequential(input.clone(), rounds);
            let b = run_rayon(input.clone(), rounds);
            let c = run_simd(input.clone(), rounds);
            assert_eq!(a, b);
            assert_eq!(a, c);
            assert_eq!(population(&a), population(&b));
            assert_eq!(population(&a), population(&c));
        }
    }
}

#[test]
fn backend_selector_matches_direct_calls() {
    let input = vec![0u8, 1, 0, 1, 1, 0];
    let rounds = 4;
    let expected = run_sequential(input.clone(), rounds);
    assert_eq!(run_simulation(input.clone(), rounds, Backend::Sequential), expected);
    assert_eq!(run_simulation(input.clone(), rounds, Backend::DataParallel), expected);
    assert_eq!(run_simulation(input.clone(), rounds, Backend::Vector), expected);
}

#[test]
fn all_zero_stays_all_zero() {
    for n in [0usize, 1, 2, 3, 10, 50] {
        let zeros = vec![0u8; n];
        for rounds in [0usize, 1, 7] {
            let result = run_sequential(zeros.clone(), rounds);
            assert_eq!(result, zeros);
            assert_eq!(population(&result), 0);
            assert_eq!(run_rayon(zeros.clone(), rounds), zeros);
            assert_eq!(run_simd(zeros.clone(), rounds), zeros);
        }
    }
}

#[test]
fn boundaries_are_dead_after_each_round() {
    for n in [3usize, 4, 17, 100] {
        let mut input = vec![1u8; n];
        input[n - 1] = 0;
        for rounds in 1..6usize {
            for result in [
                run_sequential(input.clone(), rounds),
                run_rayon(input.clone(), rounds),
                run_simd(input.clone(), rounds),
            ] {
                assert_eq!(result[0], 0);
                assert_eq!(result[n - 1], 0);
            }
        }
    }
}

#[test]
fn vector_tail_matches_sequential_for_every_residue() {
    for residue in 0..LANES {
        for extra in [LANES, 2 * LANES] {
            let n = residue + 2 + extra;
            let input = pseudo_random_generation(n, 7 + residue as u64);
            let indices = interior_indices(n);
            let mut seq_out = scratch_buffer(n);
            let mut simd_out = scratch_buffer(n);
            simulate(&input, &mut seq_out, &indices);
            simulate_simd(&input, &mut simd_out);
            assert_eq!((n - 2) % LANES, residue % LANES);
            assert_eq!(seq_out, simd_out);
        }
    }
}

#[test]
fn sequential_stepper_touches_only_target_indices() {
    let input = vec![0u8, 1, 1, 1, 0];
    let indices = vec![2usize];
    let mut out = vec![9u8; 5];
    simulate(&input, &mut out, &indices);
    // code at index 2 is 7, so the rule writes 0 there; nothing else moves
    assert_eq!(out, vec![9u8, 9, 0, 9, 9]);
}

#[test]
fn data_parallel_stepper_writes_the_interior() {
    let input = vec![0u8, 1, 1, 1, 0];
    let mut out = scratch_buffer(5);
    simulate_rayon(&input, &mut out);
    assert_eq!(out, vec![0u8, 1, 0, 1, 0]);
}

#[test]
fn short_generations_pass_through() {
    for input in [vec![], vec![1u8], vec![1u8, 0]] {
        assert_eq!(run_sequential(input.clone(), 9), input);
        assert_eq!(run_rayon(input.clone(), 9), input);
        assert_eq!(run_simd(input.clone(), 9), input);
        let mut out = vec![7u8; input.len()];
        simulate_simd(&input, &mut out);
        assert_eq!(out, input);
    }
}

#[test]
fn long_run_with_single_live_cell_near_left_boundary() {
    let mut input = vec![0u8; 1000];
    input[1] = 1;
    let rounds = 100;
    let a = run_sequential(input.clone(), rounds);
    let b = run_rayon(input.clone(), rounds);
    let c = run_simd(input.clone(), rounds);
    assert_eq!(a, b);
    assert_eq!(a, c);
    let count = population(&a);
    assert_eq!(count, population(&b));
    assert_eq!(count, population(&c));
}

#[test]
fn population_counts_ones() {
    assert_eq!(population(&vec![]), 0);
    assert_eq!(population(&vec![0u8, 1, 1, 0, 1]), 3);
    assert_eq!(population(&vec![1u8; 64]), 64);
}
