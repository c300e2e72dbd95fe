//! Key codes grouped by the part of the remote control they belong to.

pub mod keys;
