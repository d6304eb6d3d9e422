//! A bounded Game of Life engine: a fixed grid of tri-state cells, the
//! generation rule, pointer-driven editing while paused, and the run/pause
//! state machine that drives it.
//!
//! The engine opens no window, draws nothing and reads no clock. Its caller
//! hands it events (start, stop, reset, a pointer sample, the time a frame
//! took) and reads the cells back to draw them.

pub mod cell;
pub mod game;
pub mod grid;
pub mod interaction;
pub mod patterns;
pub mod rules;
pub mod schedule;
pub mod seed;

pub use cell::Cell;
pub use game::{Applied, Config, GameOfLife, TieBreak};
pub use grid::{Grid, GridError};
pub use schedule::{Cadence, FrameReport, PointerSample, Scheduler};
pub use seed::{check_samples, sample_seed};
