//! Native dependency resolution and link-directive synthesis.
//!
//! Given an explicit snapshot of the process environment, a model of the
//! relevant parts of the filesystem, and a target triple, this library
//! decides which library artifacts to link, in which order, and with which
//! search paths and compiler include flags.  Every decision is a pure,
//! verified function of those inputs; reading the environment, scanning
//! directories and driving the external build tools is left to a thin
//! unverified shell.

pub mod artifact;
pub mod config;
pub mod emit;
pub mod env;
pub mod fs;
pub mod introspect;
pub mod laws;
pub mod strutil;
pub mod target;
pub mod tokenize;
