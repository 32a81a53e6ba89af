//! A vanity-address search library: derives candidate addresses from
//! (base, seed, owner) triples by hashing, encodes them over the base-58
//! alphabet, and matches them against a validated prefix/suffix pattern.

pub mod address;
pub mod alphabet;
pub mod config;
pub mod pattern;
pub mod report;
pub mod seed;
pub mod stdx;
pub mod worker;
