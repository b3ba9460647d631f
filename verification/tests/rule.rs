use life_grid::rule::step_cell;

#[test]
fn dead_cell_is_born_on_exactly_three_neighbours() {
    for neighbours in 0u8..=8 {
        assert_eq!(step_cell(false, neighbours), neighbours == 3);
    }
}

#[test]
fn live_cell_survives_on_two_or_three_neighbours() {
    for neighbours in 0u8..=8 {
        assert_eq!(step_cell(true, neighbours), neighbours == 2 || neighbours == 3);
    }
}

#[test]
fn neighbour_counts_beyond_eight_leave_no_cell_alive() {
    assert!(!step_cell(true, 9));
    assert!(!step_cell(false, 255));
}
