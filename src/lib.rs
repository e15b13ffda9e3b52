//! Animated velocity overlay support for interactive maps.
//!
//! The library has two parts: an encoder that turns velocity grids and layer
//! settings into the record layout consumed by the overlay plugin, and a state
//! machine that decides when the live overlay is created, updated and torn down.
//!
//! Floating-point quantities are carried as IEEE-754 binary64 bit patterns
//! (`u64`), so the encoder can be reasoned about exactly.
pub mod number;
pub mod grid;
pub mod encode;
pub mod lifecycle;
