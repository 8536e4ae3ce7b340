//! Discrete decision logic of a disc-sport tactics board: which heat-map
//! layers take part in a computation, which players a positioning policy
//! moves, how a coverage cell is classified, and how the disc changes hands.
//!
//! The metric parts of the model (positions, distances, angles and the
//! layer formulas) are floating point and live with the application; every
//! decision they feed into is made and proved here.
pub mod coverage;
pub mod flight;
pub mod layers;
pub mod roster;
