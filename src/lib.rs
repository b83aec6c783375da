//! A single-owner cache of a remote sequence that can only be fetched in
//! fixed-size chunks, driven by messages handled one at a time.
//!
//! The decisions (serve from the cache, start a fetch, merge a chunk, recover
//! from a timed-out fetch) are verified here; performing the fetch, racing it
//! against a timer and delivering replies is left to the caller, which acts on
//! the [`messages::Reaction`] that each message produces.
pub mod messages;
pub mod cache;
pub mod worker;
pub mod laws;
