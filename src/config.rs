use vstd::prelude::*;

verus! {

/// Logical width of the playing field.
pub const BASE_WIDTH: i32 = 500;

/// Logical height of the playing field.
pub const BASE_HEIGHT: i32 = 600;

/// Most targets alive at once.
pub const MAX_NUMBER: usize = 10;

/// Score that wins the game when reached exactly.
pub const GOAL: i32 = 99;

/// Target values are drawn from `1..MAX_SELECT_NUMBER`.
pub const MAX_SELECT_NUMBER: i32 = 10;

/// Color indices are drawn from `0..MAX_COLOR`.
pub const MAX_COLOR: i32 = 4;

/// Horizontal distance a target travels in one tick.
pub const INCREASE_STEP: i32 = 8;

/// Spawned targets start with `x` in `1..BASE_WIDTH - SPAWN_MARGIN` and `y` in
/// `1..BASE_HEIGHT - SPAWN_MARGIN`.
pub const SPAWN_MARGIN: i32 = 100;

/// Spawned targets have width and height in `MIN_SIDE..MAX_SIDE`.
pub const MIN_SIDE: i32 = 50;

/// See `MIN_SIDE`.
pub const MAX_SIDE: i32 = 400;

/// A host frame in every `TICK_INTERVAL` advances the simulation.
pub const TICK_INTERVAL: u32 = 5;

} // verus!
