//! The scratch-size formula on the documented geometries.

use bobyqa::scratch::working_space;
use bobyqa::scratch::working_space_size;

#[test]
fn scratch_size_for_two_variables_four_conditions() {
    // 3 * 2 * (2 + 3) / 2 + (4 + 13) * (4 + 2) = 15 + 102.
    assert_eq!(working_space_size(4, 2), 117);
}

#[test]
fn scratch_size_for_three_variables_five_conditions() {
    // 3 * 3 * (3 + 3) / 2 + (5 + 13) * (5 + 3) = 27 + 144.
    assert_eq!(working_space_size(5, 3), 171);
}

#[test]
fn scratch_buffer_is_zeroed_and_exactly_sized() {
    let buffer = working_space(10, 3);
    assert_eq!(buffer.len(), working_space_size(10, 3));
    assert_eq!(buffer.len(), 326);
    assert!(buffer.iter().all(|w| *w == 0));
}
