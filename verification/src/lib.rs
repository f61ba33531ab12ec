//! Dial-drift simulation and alarm-lifecycle engine for a human-factors
//! research instrument.
//!
//! A participant tracks a moving ball while monitoring a panel of dials.
//! Each dial's needle wanders inside an assigned band and, at a scheduled
//! moment, drifts out of range; the participant must notice and press the
//! dial's response key, which is scored for correctness and reaction time.
//!
//! All quantities are fixed-point integers: dial values in whole dial units,
//! times in milliseconds, ball coordinates in thousandths of the half-screen.

pub mod audio;
pub mod ball;
pub mod config;
pub mod dial;
pub mod output;
pub mod path;
pub mod range;
mod rng;
pub mod sim;
