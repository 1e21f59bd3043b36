//! Runs a self-contained source snippet by scaffolding a minimal buildable
//! project around it: directives embedded in leading comment lines of the
//! snippet are parsed into a project descriptor, a build manifest is rendered
//! from that descriptor, an on-disk layout is derived, and an external
//! build-tool invocation is produced.  All of that is pure computation and is
//! verified here; the caller performs the filesystem writes and spawns the
//! process that the library describes.

pub mod descriptor;
pub mod executor;
pub mod layout;
pub mod manifest;
pub mod strutil;
