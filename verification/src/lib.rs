//! A small development-container helper library.
//!
//! The library models a declarative container configuration (an image
//! reference, a local build recipe, or a compose stack, plus run-time
//! parameters, port mappings and volume mounts) and translates each
//! subcommand into the exact argument list for the external container
//! tool. Every translation is specified and verified; reading the
//! configuration file and spawning the external tool are left to the
//! (unverified) binary around the library.

pub mod cli;
pub mod command;
pub mod config;
pub mod decimal;
pub mod errors;
pub mod render;
