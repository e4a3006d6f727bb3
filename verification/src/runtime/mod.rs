//! The runtime packages: which Torch build a machine gets, where it comes from,
//! and what it is made of.
pub mod config;
pub mod install;
pub mod laws;
pub mod libraries;
pub mod package;
pub mod results;
pub mod target;
pub mod torch;
