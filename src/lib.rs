//! A desk-calculator engine: key presses go in, display text comes out.

pub mod numeral;
pub mod calculator;
pub mod laws;
pub mod style;
