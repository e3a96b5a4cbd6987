//! Decision core of a cross-platform browser installer.
//!
//! The library resolves which artifact to download for a host platform,
//! which system packages a Linux host needs, and drives the whole install
//! as a step machine: each step yields one [`machine::Action`] (a command to
//! run, a directory to create, lines to print), and the caller reports the
//! outcome back as an [`machine::Outcome`]. All decisions — probe order,
//! fallback policy, cleanup on failure, error messages — are made here and
//! carry contracts; the caller only performs the I/O.

pub mod artifact;
pub mod deps;
pub mod home;
pub mod laws;
pub mod machine;
pub mod platform;
pub mod text;
