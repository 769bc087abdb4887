//! Verified core of an OCI runtime interceptor.
//!
//! The interceptor sits in front of an OCI-compliant container runtime.
//! When an invocation is a container-creation call, it locates the bundle
//! directory from the forwarded argument list, mutates the container's
//! runtime specification according to the enabled policies, and forwards
//! the original arguments to the real runtime, propagating its exit status.
//!
//! This crate holds the verified logic: the bundle path resolver, the spec
//! mutation engine (environment overrides and read-only networking mounts),
//! and the controller's decisions. File I/O, argument parsing, and the
//! subprocess boundary live outside the library.

pub mod bundle;
pub mod controller;
pub mod env_vars;
pub mod errors;
pub mod model;
pub mod networking_mounts;
pub mod strutil;
