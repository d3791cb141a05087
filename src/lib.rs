//! A fixed table of foreground/background color pairs, and a seeded
//! pseudo-random generator that remembers the seed it was made from.
pub mod colors;
pub mod seed;

pub use colors::Palette;
pub use seed::Seed;
