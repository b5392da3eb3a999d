//! The pitch model: notes, octaves, and exact frequencies.

pub mod note;
