//! How the game reads its inputs: keys, the size of the drawing area, and
//! the clock.
use vstd::prelude::*;
use crate::text::{decimal, decimal_two, push_decimal, same_text};

verus! {

/// The size, in pixels, that each map cell should have.
pub const DESIRED_TILE_SIZE: u32 = 24;

/// The fewest cells a map has along each axis.
pub const MIN_MAP_CELLS: u32 = 5;

/// What a key press asks of the game.
#[derive(Clone, Copy, PartialEq, Eq, Structural, Debug)]
pub enum KeyCommand {
    /// Move the player by one cell.
    Move { dx: isize, dy: isize },
    /// Start a new game.
    Restart,
    /// Nothing.
    Ignore,
}

/// The command a key stands for: the arrow keys move, `r` or `R` restarts.
pub open spec fn command_of(key: Seq<char>) -> KeyCommand {
    if key == "ArrowUp"@ {
        KeyCommand::Move { dx: 0isize, dy: -1isize }
    } else if key == "ArrowDown"@ {
        KeyCommand::Move { dx: 0isize, dy: 1isize }
    } else if key == "ArrowLeft"@ {
        KeyCommand::Move { dx: -1isize, dy: 0isize }
    } else if key == "ArrowRight"@ {
        KeyCommand::Move { dx: 1isize, dy: 0isize }
    } else if key == "r"@ || key == "R"@ {
        KeyCommand::Restart
    } else {
        KeyCommand::Ignore
    }
}

/// The command the key named `key` stands for.
pub fn key_command(key: &str) -> (c: KeyCommand)
    ensures
        c == command_of(key@),
{
    if same_text(key, "ArrowUp") {
        KeyCommand::Move { dx: 0, dy: -1 }
    } else if same_text(key, "ArrowDown") {
        KeyCommand::Move { dx: 0, dy: 1 }
    } else if same_text(key, "ArrowLeft") {
        KeyCommand::Move { dx: -1, dy: 0 }
    } else if same_text(key, "ArrowRight") {
        KeyCommand::Move { dx: 1, dy: 0 }
    } else if same_text(key, "r") || same_text(key, "R") {
        KeyCommand::Restart
    } else {
        KeyCommand::Ignore
    }
}

/// How many map cells fit along an axis of `pixels` pixels: one per tile,
/// but never fewer than the minimum.
pub open spec fn cells_along(pixels: u32) -> int {
    let n = pixels / DESIRED_TILE_SIZE;
    if n > MIN_MAP_CELLS { n as int } else { MIN_MAP_CELLS as int }
}

/// How many map cells fit along an axis of `pixels` pixels.
pub fn map_dimension(pixels: u32) -> (n: usize)
    ensures
        n == cells_along(pixels),
{
    let n = pixels / DESIRED_TILE_SIZE;
    let n = if n > MIN_MAP_CELLS { n } else { MIN_MAP_CELLS };
    n as usize
}

/// The seconds from `start` to `now`, or zero if `now` comes first.
pub open spec fn elapsed(now: u64, start: u64) -> nat {
    if now >= start { (now - start) as nat } else { 0 }
}

/// The clock text for `seconds` seconds: minutes and seconds, each with at
/// least two digits, separated by a colon.
pub open spec fn clock_text(seconds: nat) -> Seq<char> {
    decimal_two(seconds / 60) + ":"@ + decimal_two(seconds % 60)
}

fn push_decimal_two(out: &mut String, n: u64)
    ensures
        final(out)@ == old(out)@ + decimal_two(n as nat),
{
    proof {
        reveal_strlit("0");
    }
    if n < 10 {
        out.append("0");
    }
    push_decimal(out, n);
    proof {
        if n < 10 {
            assert(decimal(n as nat) == seq![crate::text::digit_char(n as nat)]);
            assert(old(out)@ + "0"@ + decimal(n as nat) =~= old(out)@ + decimal_two(n as nat));
        }
    }
}

/// The game clock shown at `now` for a game started at `start`.
pub fn game_clock(now: u64, start: u64) -> (s: String)
    ensures
        s@ == clock_text(elapsed(now, start)),
{
    let seconds = if now >= start { now - start } else { 0 };
    let mut s = String::new();
    push_decimal_two(&mut s, seconds / 60);
    s.append(":");
    push_decimal_two(&mut s, seconds % 60);
    assert(s@ =~= clock_text(elapsed(now, start)));
    s
}

} // verus!
