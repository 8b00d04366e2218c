//! A Pomodoro session timer: focused work alternates with short and long
//! breaks, one second at a time.
//!
//! `timer` holds the timer's record and the commands that act on it,
//! `scheduler` the step that the once-a-second wake-up takes, `model` the
//! mathematical timer that the contracts of both are stated over, and `laws`
//! what is proved of that timer for every run of commands and steps.

pub mod laws;
pub mod model;
pub mod scheduler;
pub mod timer;
