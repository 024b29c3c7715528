use vstd::prelude::*;
use crate::rule::is_generation;

verus! {

/// Why a raw initial configuration cannot be turned into a generation.
#[derive(Clone, Copy, Debug, PartialEq, Eq, Structural)]
pub enum LoadError {
    /// No byte of the raw configuration is an ASCII '1'.
    NoLiveCell,
    /// The very last byte is an ASCII '1', so there is no room for the dead
    /// cell that must follow the last live one.
    LiveCellAtEnd,
}

/// `p` is the position of the last ASCII '1' in `raw`.
pub open spec fn is_last_live(raw: Seq<u8>, p: int) -> bool {
    &&& 0 <= p < raw.len()
    &&& raw[p] == 49
    &&& forall|j: int| p < j < raw.len() ==> raw[j] != 49
}

/// The cell value an ASCII byte stands for: its distance above '0', with
/// bytes below '0' going to 0.
pub open spec fn cell_of_byte(b: u8) -> u8 {
    if b >= 48 {
        (b - 48) as u8
    } else {
        0u8
    }
}

/// Trims a raw ASCII configuration to its minimal width — one dead cell past
/// the last live one — and converts each byte to a cell value. Fails when no
/// live cell exists, or when the last byte is live so nothing dead follows
/// it.
pub fn sanitize_input(raw: &Vec<u8>) -> (result: Result<Vec<u8>, LoadError>)
    ensures
        match result {
            Ok(gen) => exists|p: int|
                {
                    &&& #[trigger] is_last_live(raw@, p)
                    &&& p + 1 < raw@.len()
                    &&& gen@.len() == p + 2
                    &&& forall|j: int| 0 <= j < gen@.len() ==> gen@[j] == cell_of_byte(raw@[j])
                },
            Err(LoadError::NoLiveCell) => forall|j: int| 0 <= j < raw@.len() ==> raw@[j] != 49,
            Err(LoadError::LiveCellAtEnd) => raw@.len() > 0 && raw@[raw@.len() - 1] == 49,
        },
{
    let n = raw.len();
    let mut found = false;
    let mut p: usize = 0;
    let mut i: usize = n;
    while !found && i > 0
        invariant
            i <= n,
            n == raw@.len(),
            !found ==> forall|j: int| i <= j < n ==> raw@[j] != 49,
            found ==> p == i && is_last_live(raw@, p as int),
        decreases i,
    {
        i -= 1;
        if raw[i] == 49 {
            found = true;
            p = i;
        }
    }
    if !found {
        return Err(LoadError::NoLiveCell);
    }
    if p + 1 == n {
        return Err(LoadError::LiveCellAtEnd);
    }
    let size = p + 2;
    let mut gen: Vec<u8> = Vec::new();
    let mut j: usize = 0;
    while j < size
        invariant
            j <= size,
            size <= n,
            n == raw@.len(),
            gen@.len() == j,
            forall|q: int| 0 <= q < j ==> gen@[q] == cell_of_byte(raw@[q]),
        decreases size - j,
    {
        let b = raw[j];
        let cell = if b >= 48 {
            b - 48
        } else {
            0
        };
        gen.push(cell);
        j += 1;
    }
    proof {
        assert(is_last_live(raw@, p as int));
    }
    Ok(gen)
}

/// Reports whether every byte of `v` is a valid cell value, 0 or 1.
pub fn is_binary_generation(v: &Vec<u8>) -> (r: bool)
    ensures
        r == is_generation(v@),
{
    let n = v.len();
    let mut j: usize = 0;
    while j < n
        invariant
            j <= n,
            n == v@.len(),
            forall|q: int| 0 <= q < j ==> v@[q] == 0 || v@[q] == 1,
        decreases n - j,
    {
        if v[j] > 1 {
            return false;
        }
        j += 1;
    }
    true
}

} // verus!
