//! Pacing and control decisions of the analysis loop and the render loop.
//!
//! The loops themselves sleep, lock and poll; what they decide is here.

use vstd::prelude::*;

verus! {

/// Target length of one analysis tick, in milliseconds (about 60 Hz).
pub const TARGET_INTERVAL_MS: u64 = 16;

/// Pause after a tick that found too few samples, in milliseconds.
pub const BACKOFF_MS: u64 = 5;

/// Slowest render rate, in frames per second.
pub const MIN_FPS: u32 = 30;

/// Fastest render rate, in frames per second.
pub const MAX_FPS: u32 = 60;

/// What the analysis loop does after an analysis attempt.
#[derive(Clone, Copy, Debug, PartialEq, Eq, Structural)]
pub enum TickAction {
    /// A frame was analysed: bin, smooth and publish it.
    Publish,
    /// Too few samples: publish nothing and pause for this many milliseconds.
    Backoff(u64),
}

/// The action after an analysis attempt that did or did not yield a frame.
pub fn tick_action(frame_ready: bool) -> (a: TickAction)
    ensures
        frame_ready ==> a == TickAction::Publish,
        !frame_ready ==> a == TickAction::Backoff(BACKOFF_MS),
{
    if frame_ready {
        TickAction::Publish
    } else {
        TickAction::Backoff(BACKOFF_MS)
    }
}

/// How long to sleep after a tick that took `elapsed` of a `target` interval
/// (any one unit): the rest of the interval, or nothing after an overrun, so
/// that no debt is carried into later ticks.
pub fn remaining_sleep(elapsed: u64, target: u64) -> (r: u64)
    ensures
        elapsed < target ==> r == target - elapsed,
        elapsed >= target ==> r == 0,
{
    if elapsed < target {
        target - elapsed
    } else {
        0
    }
}

/// Whether a tick that took `elapsed` of a `target` interval overran it.
pub fn overran(elapsed: u64, target: u64) -> (r: bool)
    ensures
        r == (elapsed >= target),
{
    elapsed >= target
}

/// The render rate actually used for a requested one: between `MIN_FPS` and `MAX_FPS`.
pub fn clamp_fps(target_fps: u32) -> (r: u32)
    ensures
        target_fps < MIN_FPS ==> r == MIN_FPS,
        target_fps > MAX_FPS ==> r == MAX_FPS,
        MIN_FPS <= target_fps <= MAX_FPS ==> r == target_fps,
{
    if target_fps < MIN_FPS {
        MIN_FPS
    } else if target_fps > MAX_FPS {
        MAX_FPS
    } else {
        target_fps
    }
}

/// Length of one render frame in whole milliseconds at `fps` frames per second.
pub fn frame_interval_ms(fps: u32) -> (r: u64)
    requires
        fps > 0,
    ensures
        r == 1000int / (fps as int),
{
    1000 / (fps as u64)
}

/// A key press as the render loop sees it.
#[derive(Clone, Copy, Debug, PartialEq, Eq, Structural)]
pub enum KeyInput {
    /// A character key, with whether Control was held.
    Char(char, bool),
    /// The Escape key.
    Esc,
    /// Any other key.
    Other,
}

/// Whether a key press ends the render loop: `q`, Escape, or Control-C.
pub fn is_quit_key(key: KeyInput) -> (r: bool)
    ensures
        r == match key {
            KeyInput::Char(c, ctrl) => c == 'q' || (c == 'c' && ctrl),
            KeyInput::Esc => true,
            KeyInput::Other => false,
        },
{
    match key {
        KeyInput::Char(c, ctrl) => c == 'q' || (c == 'c' && ctrl),
        KeyInput::Esc => true,
        KeyInput::Other => false,
    }
}

} // verus!
