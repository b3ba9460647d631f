use life_grid::clock::{SimulationClock, TICK_THRESHOLD_NANOS};

#[test]
fn clock_starts_without_debt() {
    let clock = SimulationClock::new();
    assert_eq!(clock.accumulator(), 0);
    assert_eq!(clock.threshold(), 16_670_000);
    assert_eq!(TICK_THRESHOLD_NANOS, 16_670_000);
}

#[test]
fn frame_of_twice_the_threshold_fires_once_and_clears_the_debt() {
    let mut clock = SimulationClock::new();
    let fired = clock.advance(2 * TICK_THRESHOLD_NANOS);
    assert!(fired);
    assert_eq!(clock.accumulator(), 0);
    assert!(!clock.advance(0));
    assert_eq!(clock.accumulator(), 0);
}

#[test]
fn sixtieth_of_a_second_threshold_discards_the_remainder() {
    let sixtieth: u64 = 16_666_667;
    let mut clock = SimulationClock::with_threshold(sixtieth);
    assert_eq!(clock.threshold(), sixtieth);
    assert!(clock.advance(2 * sixtieth));
    assert_eq!(clock.accumulator(), 0);
    assert_ne!(clock.accumulator(), sixtieth);
}

#[test]
fn frame_that_only_reaches_the_threshold_does_not_fire() {
    let mut clock = SimulationClock::new();
    assert!(!clock.advance(TICK_THRESHOLD_NANOS));
    assert_eq!(clock.accumulator(), TICK_THRESHOLD_NANOS);
    assert!(clock.advance(1));
    assert_eq!(clock.accumulator(), 0);
}

#[test]
fn debt_adds_up_over_short_frames() {
    let mut clock = SimulationClock::new();
    assert!(!clock.advance(5_000_000));
    assert_eq!(clock.accumulator(), 5_000_000);
    assert!(!clock.advance(5_000_000));
    assert_eq!(clock.accumulator(), 10_000_000);
    assert!(!clock.advance(6_670_000));
    assert_eq!(clock.accumulator(), 16_670_000);
    assert!(clock.advance(8_000_000));
    assert_eq!(clock.accumulator(), 0);
    assert!(!clock.advance(8_000_000));
    assert_eq!(clock.accumulator(), 8_000_000);
}

#[test]
fn longest_possible_frame_fires_one_tick() {
    let mut clock = SimulationClock::new();
    assert!(!clock.advance(16_000_000));
    assert!(clock.advance(u64::MAX));
    assert_eq!(clock.accumulator(), 0);
    assert!(!clock.advance(1));
    assert_eq!(clock.accumulator(), 1);
}

#[test]
fn zero_threshold_fires_on_any_elapsed_time() {
    let mut clock = SimulationClock::with_threshold(0);
    assert!(!clock.advance(0));
    assert!(clock.advance(1));
    assert_eq!(clock.accumulator(), 0);
}

#[test]
fn run_of_frames_fires_fewer_ticks_than_thresholds_went_by() {
    let frames: [u64; 10] = [
        3_000_000, 20_000_000, 1, 16_670_000, 1, 5, 900_000_000, 16_000_000, 16_000_000, 0,
    ];
    let mut clock = SimulationClock::new();
    let mut ticks: u64 = 0;
    let mut elapsed: u64 = 0;
    for dt in frames {
        if clock.advance(dt) {
            ticks += 1;
        }
        elapsed += dt;
        assert!(clock.accumulator() <= TICK_THRESHOLD_NANOS);
        assert!(ticks * TICK_THRESHOLD_NANOS + clock.accumulator() <= elapsed);
    }
    assert_eq!(ticks, 4);
    assert!(ticks <= frames.len() as u64);
    assert!(ticks * TICK_THRESHOLD_NANOS < elapsed);
    assert_eq!(elapsed / TICK_THRESHOLD_NANOS, 58);
}
