//! A counter owned by a single worker and reached only through two
//! rendezvous channels: one that accepts increments and one that hands out
//! the current value.
//!
//! `tally` is the owner's state machine, `owner` runs one turn of it over
//! the channels, `gateway` is what callers use, `rendezvous` holds the
//! channel calls relied on, and `laws` states what holds over whole histories.
pub mod gateway;
pub mod laws;
pub mod owner;
pub mod rendezvous;
pub mod tally;
