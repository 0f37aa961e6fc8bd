//! The decision core of the POE Trade Tracker desktop front end: the probe
//! queue, the palettes and their tokens, the self-update state machine, the
//! market-tuning editors and the small text rules the pages draw with.
//!
//! Everything here is plain data in, plain data out; the window, the timers
//! and the settings file live with the caller.

pub mod textutil;
pub mod text;
pub mod probes;
pub mod palette;
pub mod status;
pub mod market;
pub mod update;
pub mod numbers;
pub mod order;
pub mod tuning;
pub mod dates;
pub mod season;
pub mod about;
pub mod picker;
pub mod page;
pub mod quotes;
pub mod pair;
pub mod watch;
pub mod trend;
pub mod calibration;
pub mod exchange;
