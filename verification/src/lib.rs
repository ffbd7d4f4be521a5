//! A small tower-defense simulation: one immobile tower damages one enemy
//! that seeks it, plus the styling rules of a demo UI button.
//!
//! Positions and health are fixed-point integers in milliunits (one
//! thousandth of a world unit), so that the per-tick rules can be stated
//! and proved exactly.

pub mod button;
pub mod geom;
pub mod sim;
