//! A small verified library of classic Rust exercises.
//!
//! The heart of the crate is [`generator`]: fixed-length random strings drawn
//! from a configurable alphabet, with the shape of every output pinned down by
//! contracts. The remaining modules hold smaller exercises on ownership,
//! strings, structs and collections, each with the most precise contract its
//! behaviour admits.

pub mod collections;
pub mod generator;
pub mod geometry;
pub mod menu;
pub mod ownership;
pub mod person;
pub mod viking;
