//! Monte-Carlo simulator for the "flame" enchantment operation: a trial
//! draws a random set of stat lines for an item, samples a magnitude tier
//! for each line from a per-flame-type weight table, reduces the resulting
//! stat vector to one comparable score, and an aggregation engine keeps a
//! threshold counter and a bounded top-K leaderboard over many trials.
//!
//! All probability weights and scoring coefficients are carried as exact
//! per-mille integers; scores are per-mille integers as well.

pub mod aggregate;
pub mod catalog;
pub mod engine;
pub mod estimate;
pub mod sample;
pub mod score;
pub mod stats;
pub mod tags;
pub mod trial;
pub mod weights;
