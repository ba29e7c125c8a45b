//! A verified core for a thin `cargo` wrapper that builds crates for Kubos
//! platform targets.
//!
//! The library resolves a platform target identifier to a compiler target
//! triplet, looks up an optional cross-linker override in a cargo
//! configuration document, assembles the argument list and environment for
//! the child `cargo` process, and decides the parent's exit code from the
//! child's. All process, file and environment handling lives outside the
//! library; the library works on plain values and is verified.

pub mod config;
pub mod invocation;
pub mod strutil;
pub mod targets;
