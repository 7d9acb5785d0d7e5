//! Parametric cross-sections and flat pattern pieces for parachute canopies.
//!
//! Design parameters are named values that expressions may refer to; curves
//! and pattern pieces live on an integer grid, so mirroring, reversal and
//! signed areas are exact.

pub mod context;
pub mod designer;
pub mod edit;
pub mod fabric;
pub mod geometry;
pub mod gore;
pub mod grid;
pub mod ident;
pub mod number;
pub mod params;
pub mod pattern;
pub mod section;
pub mod segment;
pub mod text;
pub mod units;
