//! A short-only execution layer for spot/margin cryptocurrency signals.
//!
//! An upstream strategy drops trade signals into an inbox; this library
//! decides whether each signal is actionable, turns an approved signal into
//! a bracketed order group (entry, stop-loss, take-profit ladder), tracks
//! the resulting position through its lifecycle, and enforces session risk
//! limits.
//!
//! All money amounts are fixed-point integers: prices and account values in
//! cents, order quantities in millionths of a unit, confidences and ratios
//! in thousandths. The conversions from external decimal text happen either
//! in the verified decimal parser (`numeric`) or outside the library.

pub mod auth;
pub mod config;
pub mod control;
pub mod errors;
pub mod executor;
pub mod feed;
pub mod fills;
pub mod listener;
pub mod numeric;
pub mod position;
pub mod retry;
pub mod risk;
pub mod signal;
