//! Session lifecycle and command-resolution logic for a command-line
//! controller of networked lights: parsing brightness expressions, loading
//! and saving the persisted session, resolving device names against a live
//! listing, the pairing state machine, and the planning of light commands.

pub mod brightness;
pub mod command;
pub mod directory;
pub mod pairing;
pub mod settings;
