use rule110::loader::{is_binary_generation, sanitize_input, LoadError};

#[test]
fn sanitize_trims_one_past_the_last_live_cell() {
    let raw = b"0011000".to_vec();
    assert_eq!(sanitize_input(&raw), Ok(vec![0u8, 0, 1, 1, 0]));
}

#[test]
fn sanitize_keeps_a_leading_live_cell() {
    let raw = b"1000".to_vec();
    assert_eq!(sanitize_input(&raw), Ok(vec![1u8, 0]));
}

#[test]
fn sanitize_rejects_input_without_live_cells() {
    assert_eq!(sanitize_input(&b"0000".to_vec()), Err(LoadError::NoLiveCell));
    assert_eq!(sanitize_input(&Vec::new()), Err(LoadError::NoLiveCell));
}

#[test]
fn sanitize_rejects_a_live_cell_in_the_last_place() {
    assert_eq!(sanitize_input(&b"001".to_vec()), Err(LoadError::LiveCellAtEnd));
    assert_eq!(sanitize_input(&b"1".to_vec()), Err(LoadError::LiveCellAtEnd));
}

#[test]
fn sanitize_converts_bytes_by_distance_above_zero_digit() {
    // bytes other than '0' and '1' keep their distance above '0'; the
    // conversion saturates at 0 for bytes below '0'
    let raw = b"2100".to_vec();
    assert_eq!(sanitize_input(&raw), Ok(vec![2u8, 1, 0]));
}

#[test]
fn binary_check_accepts_only_zeros_and_ones() {
    assert!(is_binary_generation(&vec![]));
    assert!(is_binary_generation(&vec![0u8, 1, 1, 0]));
    assert!(!is_binary_generation(&vec![0u8, 2, 1]));
}
