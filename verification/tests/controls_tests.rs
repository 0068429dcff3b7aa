use liwin::controls::{game_clock, key_command, map_dimension, KeyCommand};
use liwin::text::{same_text, to_decimal};

#[test]
fn arrow_keys_move_and_r_restarts() {
    assert_eq!(key_command("ArrowUp"), KeyCommand::Move { dx: 0, dy: -1 });
    assert_eq!(key_command("ArrowDown"), KeyCommand::Move { dx: 0, dy: 1 });
    assert_eq!(key_command("ArrowLeft"), KeyCommand::Move { dx: -1, dy: 0 });
    assert_eq!(key_command("ArrowRight"), KeyCommand::Move { dx: 1, dy: 0 });
    assert_eq!(key_command("r"), KeyCommand::Restart);
    assert_eq!(key_command("R"), KeyCommand::Restart);
    assert_eq!(key_command("x"), KeyCommand::Ignore);
    assert_eq!(key_command("arrowup"), KeyCommand::Ignore);
    assert_eq!(key_command(""), KeyCommand::Ignore);
}

#[test]
fn map_dimension_is_one_cell_per_tile_with_a_minimum() {
    assert_eq!(map_dimension(600), 25);
    assert_eq!(map_dimension(500), 20);
    assert_eq!(map_dimension(130), 5);
    assert_eq!(map_dimension(144), 6);
    assert_eq!(map_dimension(0), 5);
}

#[test]
fn clock_shows_minutes_and_seconds() {
    assert_eq!(game_clock(0, 0), "00:00");
    assert_eq!(game_clock(1_000_125, 1_000_000), "02:05");
    assert_eq!(game_clock(3599, 0), "59:59");
    assert_eq!(game_clock(6000, 0), "100:00");
}

#[test]
fn clock_before_start_shows_zero() {
    assert_eq!(game_clock(10, 20), "00:00");
}

#[test]
fn decimal_rendering() {
    assert_eq!(to_decimal(0), "0");
    assert_eq!(to_decimal(7), "7");
    assert_eq!(to_decimal(10), "10");
    assert_eq!(to_decimal(8080), "8080");
    assert_eq!(to_decimal(u64::MAX), "18446744073709551615");
}

#[test]
fn same_text_compares_characters() {
    assert!(same_text("ab", "ab"));
    assert!(!same_text("ab", "abc"));
    assert!(same_text("", ""));
}
