//! Synthetic endurance-athlete training data: a verified year-long simulation
//! engine producing per-athlete daily telemetry and ground-truth injury labels.
//!
//! All quantities are fixed-point integers: training load, heart-rate and
//! ratio values are held in milli-units (1000 = 1.0), probabilities in
//! parts-per-million (1_000_000 = 1.0). Every random draw comes from a
//! seeded, position-indexed ChaCha8 stream, so the whole pipeline is a
//! deterministic function of its seed.

pub mod activity;
pub mod athlete;
pub mod calendar;
pub mod config;
pub mod daily;
pub mod dataset;
pub mod injury;
pub mod metrics;
pub mod physiology;
pub mod plan;
pub mod rng;
pub mod simulation;
pub mod util;
pub mod year;
