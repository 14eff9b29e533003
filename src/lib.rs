//! Decision core of a frame-stepped orbital simulation: which bodies each
//! pass of a frame works on, which body is the gravity source and which is
//! the player, and how held keys turn into thrust adjustments.
pub mod body;
pub mod input;
pub mod schedule;
