use vstd::prelude::*;

verus! {

/// The elementary rule-110 lookup table: a cell dies (or stays dead) exactly
/// for the neighborhood codes 0, 4 and 7, and is live for every other code.
pub open spec fn rule_spec(code: int) -> u8 {
    if code == 0 || code == 4 || code == 7 {
        0u8
    } else {
        1u8
    }
}

/// A generation holds only the cell values 0 and 1.
pub open spec fn is_generation(c: Seq<u8>) -> bool {
    forall|i: int| 0 <= i < c.len() ==> c[i] == 0 || c[i] == 1
}

/// The 3-bit neighborhood code of interior cell `i`, read from the previous
/// generation: `4*left + 2*mid + right`.
pub open spec fn code_at(c: Seq<u8>, i: int) -> int {
    4 * (c[i - 1] as int) + 2 * (c[i] as int) + (c[i + 1] as int)
}

/// Looks up the next value of a cell from its 3-bit neighborhood code.
pub fn apply_rule(val: u8) -> (r: u8)
    requires
        val <= 7,
    ensures
        r == rule_spec(val as int),
{
    match val {
        7 | 4 | 0 => 0,
        _ => 1,
    }
}

/// Next value of the interior cell just past `off`: the cell at index
/// `off + 1`, whose neighborhood starts at index `off`.
pub fn next_cell(input: &Vec<u8>, off: usize) -> (r: u8)
    requires
        is_generation(input@),
        off + 2 < input.len(),
    ensures
        r == rule_spec(code_at(input@, off + 1)),
{
    let cc = 4 * input[off] + 2 * input[off + 1] + input[off + 2];
    apply_rule(cc)
}

} // verus!
