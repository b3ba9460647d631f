use life_grid::cells::CellField;
use life_grid::error::GridError;
use life_grid::seed::{alive_from_draw, draw_many, DEAD_UP_TO};

#[test]
fn draw_above_six_tenths_seeds_a_live_cell() {
    assert_eq!(DEAD_UP_TO, 2_576_980_377);
    assert!(!alive_from_draw(0));
    assert!(!alive_from_draw(DEAD_UP_TO));
    assert!(alive_from_draw(DEAD_UP_TO + 1));
    assert!(alive_from_draw(u32::MAX));
    assert!(!alive_from_draw(2_147_483_648));
    assert!(alive_from_draw(3_000_000_000));
}

#[test]
fn threshold_is_six_tenths_of_the_range() {
    let range: u64 = 1 << 32;
    assert!(5 * (DEAD_UP_TO as u64) <= 3 * range);
    assert!(5 * (DEAD_UP_TO as u64 + 1) > 3 * range);
    let alive_draws = range - 1 - DEAD_UP_TO as u64;
    assert_eq!(alive_draws, 1_717_986_918);
}

#[test]
fn draw_many_takes_the_number_asked_for() {
    assert_eq!(draw_many(0).len(), 0);
    assert_eq!(draw_many(1).len(), 1);
    assert_eq!(draw_many(1000).len(), 1000);
}

#[test]
fn draws_come_from_the_generator_of_the_thread() {
    fastrand::seed(99);
    let taken = draw_many(32);
    fastrand::seed(99);
    let mut expected: Vec<u32> = Vec::new();
    for _ in 0..32 {
        expected.push(fastrand::u32(..));
    }
    assert_eq!(taken, expected);
    let mut distinct = taken.clone();
    distinct.sort();
    distinct.dedup();
    assert!(distinct.len() > 16);
}

#[test]
fn seeded_field_is_the_field_of_the_next_draws() {
    fastrand::seed(7);
    let seeded = CellField::seeded(16).unwrap();
    fastrand::seed(7);
    let draws = draw_many(256);
    let expected = CellField::from_draws(16, &draws).unwrap();
    assert_eq!(seeded.size(), 16);
    assert_eq!(seeded.words(), expected.words());
}

#[test]
fn seeded_field_of_the_standard_size_is_two_fifths_alive() {
    fastrand::seed(0x5eed);
    let field = CellField::seeded(512).unwrap();
    assert_eq!(field.size(), 512);
    assert_eq!(field.words().len(), 262_144);
    let alive = field.alive_count() as f64;
    let fraction = alive / 262_144.0;
    assert!(fraction > 0.39, "fraction {fraction}");
    assert!(fraction < 0.41, "fraction {fraction}");
}

#[test]
fn unseeded_generator_also_gives_about_two_fifths() {
    let field = CellField::seeded(256).unwrap();
    let fraction = field.alive_count() as f64 / 65_536.0;
    assert!(fraction > 0.37 && fraction < 0.43, "fraction {fraction}");
}

#[test]
fn seeding_refuses_a_field_beyond_the_limit() {
    assert!(matches!(CellField::seeded(32_768), Err(GridError::TooLarge)));
    assert!(matches!(CellField::seeded(u32::MAX), Err(GridError::TooLarge)));
}
