use life_grid::cells::{CellField, MAX_FIELD_SIZE};
use life_grid::error::GridError;

fn field_of(size: u32, cells: &[u32]) -> CellField {
    let draws: Vec<u32> = cells.iter().map(|&c| if c == 1 { u32::MAX } else { 0 }).collect();
    CellField::from_draws(size, &draws).unwrap()
}

fn congruential_draws(start: u32, count: usize) -> Vec<u32> {
    let mut draws = Vec::new();
    let mut x = start;
    for _ in 0..count {
        x = x.wrapping_mul(1_664_525).wrapping_add(1_013_904_223);
        draws.push(x);
    }
    draws
}

#[test]
fn zeroed_field_has_every_cell_dead() {
    let field = CellField::zeroed(8).unwrap();
    assert_eq!(field.size(), 8);
    assert_eq!(field.words(), vec![0u32; 64].as_slice());
    assert_eq!(field.alive_count(), 0);
}

#[test]
fn empty_field_is_a_field() {
    let field = CellField::zeroed(0).unwrap();
    assert_eq!(field.size(), 0);
    assert_eq!(field.words().len(), 0);
    assert_eq!(field.as_bytes().len(), 0);
    assert_eq!(field.next().words().len(), 0);
    assert_eq!(field.get(0, 0), None);
}

#[test]
fn field_beyond_the_limit_is_too_large() {
    assert_eq!(MAX_FIELD_SIZE, 32_767);
    assert!(matches!(CellField::zeroed(32_768), Err(GridError::TooLarge)));
    assert!(matches!(CellField::zeroed(u32::MAX), Err(GridError::TooLarge)));
    assert!(matches!(CellField::from_draws(40_000, &[]), Err(GridError::TooLarge)));
}

#[test]
fn draws_must_number_the_cells() {
    assert!(matches!(CellField::from_draws(4, &[0; 15]), Err(GridError::SeedMismatch)));
    assert!(matches!(CellField::from_draws(4, &[0; 17]), Err(GridError::SeedMismatch)));
    assert!(matches!(CellField::from_draws(0, &[1]), Err(GridError::SeedMismatch)));
    assert!(CellField::from_draws(4, &[0; 16]).is_ok());
    assert!(CellField::from_draws(0, &[]).is_ok());
}

#[test]
fn field_from_draws_is_alive_where_the_draw_is_high() {
    let draws = [0, 2_576_980_377, 2_576_980_378, u32::MAX];
    let field = CellField::from_draws(2, &draws).unwrap();
    assert_eq!(field.words(), &[0, 0, 1, 1]);
    assert_eq!(field.get(0, 0), Some(false));
    assert_eq!(field.get(0, 1), Some(false));
    assert_eq!(field.get(1, 0), Some(true));
    assert_eq!(field.get(1, 1), Some(true));
    assert_eq!(field.alive_count(), 2);
}

#[test]
fn get_reads_row_major_and_knows_the_edge() {
    let field = field_of(3, &[0, 1, 0, 0, 0, 1, 1, 0, 0]);
    assert_eq!(field.get(0, 1), Some(true));
    assert_eq!(field.get(1, 2), Some(true));
    assert_eq!(field.get(2, 0), Some(true));
    assert_eq!(field.get(1, 0), Some(false));
    assert_eq!(field.get(3, 0), None);
    assert_eq!(field.get(0, 3), None);
    assert_eq!(field.get(u32::MAX, u32::MAX), None);
}

#[test]
fn bytes_are_the_words_in_the_byte_order_of_the_machine() {
    let field = field_of(2, &[1, 0, 0, 1]);
    let mut expected: Vec<u8> = Vec::new();
    for word in [1u32, 0, 0, 1] {
        expected.extend_from_slice(&word.to_ne_bytes());
    }
    assert_eq!(field.as_bytes(), expected.as_slice());
    assert_eq!(field.as_bytes().len(), 16);
    let total: u32 = field.as_bytes().iter().map(|&b| b as u32).sum();
    assert_eq!(total, 2);
}

#[test]
fn cleared_field_keeps_the_side() {
    let field = field_of(2, &[1, 1, 1, 1]);
    let cleared = field.cleared();
    assert_eq!(cleared.size(), 2);
    assert_eq!(cleared.words(), &[0, 0, 0, 0]);
    assert_eq!(field.words(), &[1, 1, 1, 1]);
}

#[test]
fn blinker_turns_and_turns_back() {
    let upright = field_of(
        5,
        &[0, 0, 0, 0, 0, 0, 0, 1, 0, 0, 0, 0, 1, 0, 0, 0, 0, 1, 0, 0, 0, 0, 0, 0, 0],
    );
    let flat = [0, 0, 0, 0, 0, 0, 0, 0, 0, 0, 0, 1, 1, 1, 0, 0, 0, 0, 0, 0, 0, 0, 0, 0, 0];
    let turned = upright.next();
    assert_eq!(turned.words(), &flat);
    assert_eq!(turned.next().words(), upright.words());
    assert_eq!(upright.after(2).words(), upright.words());
    assert_eq!(upright.after(7).words(), &flat);
}

#[test]
fn block_is_still() {
    let block = field_of(4, &[0, 0, 0, 0, 0, 1, 1, 0, 0, 1, 1, 0, 0, 0, 0, 0]);
    assert_eq!(block.next().words(), block.words());
    assert_eq!(block.after(100).words(), block.words());
}

#[test]
fn neighbours_wrap_around_the_edges() {
    let corners = field_of(4, &[1, 0, 0, 1, 0, 0, 0, 0, 0, 0, 0, 0, 1, 0, 0, 1]);
    assert_eq!(corners.next().words(), corners.words());
    let edge = field_of(5, &[0; 25]).next();
    assert_eq!(edge.alive_count(), 0);
    let row = field_of(
        5,
        &[1, 1, 0, 0, 1, 0, 0, 0, 0, 0, 0, 0, 0, 0, 0, 0, 0, 0, 0, 0, 0, 0, 0, 0, 0],
    );
    assert_eq!(
        row.next().words(),
        &[1, 0, 0, 0, 0, 1, 0, 0, 0, 0, 0, 0, 0, 0, 0, 0, 0, 0, 0, 0, 1, 0, 0, 0, 0]
    );
}

#[test]
fn single_cell_field_counts_itself_eight_times() {
    let alone = field_of(1, &[1]);
    assert_eq!(alone.next().words(), &[0]);
    let nothing = field_of(1, &[0]);
    assert_eq!(nothing.next().words(), &[0]);
}

#[test]
fn glider_moves_one_cell_down_and_right_every_four_ticks() {
    let mut cells = vec![0u32; 64];
    for at in [1, 10, 16, 17, 18] {
        cells[at] = 1;
    }
    let glider = field_of(8, &cells);
    let alive_at = |field: &CellField| -> Vec<usize> {
        field.words().iter().enumerate().filter(|(_, &w)| w == 1).map(|(i, _)| i).collect()
    };
    assert_eq!(alive_at(&glider.after(1)), vec![8, 10, 17, 18, 25]);
    assert_eq!(alive_at(&glider.after(2)), vec![10, 16, 18, 25, 26]);
    assert_eq!(alive_at(&glider.after(3)), vec![9, 18, 19, 25, 26]);
    assert_eq!(alive_at(&glider.after(4)), vec![10, 19, 25, 26, 27]);
    assert_eq!(alive_at(&glider.after(32)), vec![1, 10, 16, 17, 18]);
}

#[test]
fn after_no_ticks_is_the_field_itself() {
    let field = field_of(2, &[1, 0, 1, 0]);
    assert_eq!(field.after(0).words(), field.words());
    assert_eq!(field.after(0).size(), 2);
}

#[test]
fn ticks_compose() {
    let seed = CellField::from_draws(8, &congruential_draws(2024, 64)).unwrap();
    assert_eq!(seed.after(3).after(2).words(), seed.after(5).words());
    assert_eq!(seed.next().next().words(), seed.after(2).words());
}

#[test]
fn ten_ticks_of_a_fixed_seed_on_four_by_four_give_the_golden_field() {
    let draws = congruential_draws(32, 16);
    assert_eq!(draws[0], 1_067_169_023);
    assert_eq!(draws[15], 1_845_967_984);
    let seed = CellField::from_draws(4, &draws).unwrap();
    assert_eq!(seed.words(), &[0, 0, 1, 1, 1, 0, 0, 1, 1, 0, 0, 1, 1, 0, 0, 0]);
    assert_eq!(seed.after(1).words(), &[0, 1, 1, 0, 0, 1, 0, 0, 0, 1, 0, 0, 1, 1, 1, 0]);
    assert_eq!(seed.after(5).words(), &[0, 0, 0, 0, 1, 0, 0, 1, 0, 0, 1, 0, 1, 0, 0, 1]);
    let golden = [0, 0, 0, 0, 0, 0, 1, 0, 1, 0, 0, 1, 0, 0, 1, 0];
    assert_eq!(seed.after(10).words(), &golden);
    assert_eq!(seed.after(10).alive_count(), 4);
}

#[test]
fn eight_by_eight_seed_follows_the_precomputed_generations() {
    let seed = CellField::from_draws(8, &congruential_draws(2024, 64)).unwrap();
    assert_eq!(seed.alive_count(), 27);
    let first: [u32; 64] = [
        0, 1, 1, 0, 0, 0, 0, 0, 0, 0, 0, 1, 1, 0, 0, 0, 0, 0, 1, 1, 1, 1, 0, 0, 1, 0, 0, 0, 0, 0,
        0, 0, 0, 1, 0, 0, 0, 1, 0, 0, 1, 1, 0, 0, 0, 1, 1, 1, 0, 1, 0, 0, 1, 0, 0, 0, 0, 1, 0, 1,
        1, 0, 0, 0,
    ];
    let fifth: [u32; 64] = [
        1, 0, 0, 0, 0, 0, 1, 0, 1, 1, 0, 0, 0, 0, 0, 0, 0, 1, 0, 0, 0, 0, 0, 0, 0, 0, 1, 1, 1, 0,
        0, 0, 0, 1, 0, 0, 0, 1, 1, 1, 0, 1, 0, 1, 0, 1, 0, 1, 0, 1, 1, 0, 1, 0, 0, 0, 0, 0, 1, 0,
        0, 0, 1, 0,
    ];
    assert_eq!(seed.next().words(), &first);
    assert_eq!(seed.after(5).words(), &fifth);
}

#[test]
fn instance_shows_the_cell_at_its_row_and_column() {
    let field = field_of(3, &[0, 1, 0, 0, 0, 1, 1, 0, 0]);
    for index in 0u32..9 {
        let row = index / 3;
        let col = index % 3;
        assert_eq!(field.instance_state(index), field.get(row, col));
    }
    assert_eq!(field.instance_state(1), Some(true));
    assert_eq!(field.instance_state(5), Some(true));
    assert_eq!(field.instance_state(6), Some(true));
    assert_eq!(field.instance_state(8), Some(false));
    assert_eq!(field.instance_state(9), None);
    assert_eq!(field.instance_state(u32::MAX), None);
}
