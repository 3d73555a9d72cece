//! Decoding, state keeping and output mapping for the Steam Controller.

pub mod input;
pub mod properties;
pub mod steam_controller;
pub mod text;
pub mod refresh;
pub mod discovery;
pub mod virtual_output;
pub mod laws;
pub mod meaning_laws;
