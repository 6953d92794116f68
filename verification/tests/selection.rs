// SPDX-License-Identifier: GPL-2.0

use printerfact::selection::select_index;

fn draws_selecting(size: usize, index: usize) -> usize {
    (0..=255u8)
        .filter(|draw| select_index(*draw, size) == index)
        .count()
}

#[test]
fn select_index_is_the_byte_modulo_the_size() {
    assert_eq!(select_index(0, 1), 0);
    assert_eq!(select_index(255, 1), 0);
    assert_eq!(select_index(7, 3), 1);
    assert_eq!(select_index(7, 5), 2);
    assert_eq!(select_index(255, 7), 3);
    assert_eq!(select_index(200, 256), 200);
    assert_eq!(select_index(255, 256), 255);
    assert_eq!(select_index(255, 255), 0);
}

#[test]
fn select_index_in_the_shipped_table_is_the_byte_itself() {
    for draw in 0..=255u8 {
        assert_eq!(select_index(draw, 258), draw as usize);
    }
}

#[test]
fn select_index_with_the_largest_size() {
    assert_eq!(select_index(255, usize::MAX), 255);
    assert_eq!(select_index(0, usize::MAX), 0);
}

#[test]
fn select_index_stays_inside_the_table() {
    for size in 1..=300usize {
        for draw in 0..=255u8 {
            assert!(select_index(draw, size) < size);
        }
    }
}

#[test]
fn a_size_that_divides_256_is_drawn_evenly() {
    for size in [1usize, 2, 4, 8, 16, 32, 64, 128, 256] {
        for index in 0..size {
            assert_eq!(draws_selecting(size, index), 256 / size);
        }
    }
}

#[test]
fn a_size_that_does_not_divide_256_favours_the_low_indices_by_one() {
    // 256 = 6 * 42 + 4
    assert_eq!(draws_selecting(6, 0), 43);
    assert_eq!(draws_selecting(6, 3), 43);
    assert_eq!(draws_selecting(6, 4), 42);
    assert_eq!(draws_selecting(6, 5), 42);
    // 256 = 100 * 2 + 56
    assert_eq!(draws_selecting(100, 55), 3);
    assert_eq!(draws_selecting(100, 56), 2);
    for size in 1..=256usize {
        for index in 0..size {
            let extra = if index < 256 % size { 1 } else { 0 };
            assert_eq!(draws_selecting(size, index), 256 / size + extra);
        }
    }
}

#[test]
fn facts_past_index_255_are_never_drawn() {
    for index in 0..256 {
        assert_eq!(draws_selecting(258, index), 1);
    }
    assert_eq!(draws_selecting(258, 256), 0);
    assert_eq!(draws_selecting(258, 257), 0);
    assert_eq!(draws_selecting(1000, 999), 0);
}
