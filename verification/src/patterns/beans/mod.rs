//! The "beans" pattern: each opposing spine pair is a tube of beans which
//! slide under the projected gravity vector.

pub mod bean_sim;
pub mod pattern;
