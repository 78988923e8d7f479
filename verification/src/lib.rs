//! Normalization of real-time transit feed snapshots.
//!
//! A [`snapshot::FeedSnapshot`] is one decoded poll of a feed. From it,
//! [`normalize`] builds the records of [`models`]: vehicle observations and
//! trip updates, with fixed rules for missing fields. [`filter`] selects
//! records by route, [`stats`] counts them, and [`report`], [`clock`] and
//! [`text`] give the records their text forms. [`theorems`] states what
//! holds of normalization for every snapshot.

pub mod clock;
pub mod filter;
pub mod models;
pub mod normalize;
pub mod report;
pub mod snapshot;
pub mod stats;
pub mod text;
pub mod theorems;
