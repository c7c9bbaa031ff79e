//! Recoil compensation as plain values: weapon profiles, sensitivity
//! scaling, and the start/stop logic of a compensation run.
//!
//! A profile is a named sequence of steps, each a pair of deltas in
//! thousandths of a pixel. A run walks the steps of one profile, scales each
//! by a sensitivity and hands out the resulting mouse movement together with
//! the wait that follows it. Whether a run is active is a single flag, which
//! the control surface sets and clears and which the runner reads before
//! each step, so that a stop takes effect at the runner's next step.
//!
//! The library performs no movement and does not sleep. A program holds the
//! `RunState` behind a lock, gives each run a thread of its own, and on that
//! thread calls `Runner::advance` with the lock held, performs the movement
//! that comes back and waits as long as it says.
//!
//! * `scale`: sensitivities and the rounding rule.
//! * `profile`: steps and the store of built-in profiles.
//! * `runner`: the run state, the runner, and what a run emits.
//! * `control`: the selected weapon and sensitivity, and the two commands.

pub mod control;
pub mod profile;
pub mod runner;
pub mod scale;
