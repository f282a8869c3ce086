//! Cross-platform native dependency resolution and build orchestration.
//!
//! Given a target platform descriptor (operating system, CPU architecture,
//! ABI), this library decides how required native libraries are located or
//! built, which flag and definition matrix the native sources are compiled
//! against, how the resulting artifacts are packaged for the platform, and
//! which linker directives a downstream build system must consume. All
//! decisions are pure functions of plain values; a thin unverified shell
//! performs the actual process invocations and filesystem probes and feeds
//! their outcomes back in.

pub mod crypto;
pub mod emitter;
pub mod engine;
pub mod matrix;
pub mod model;
pub mod packaging;
pub mod platform;
pub mod resolver;
pub mod text;
