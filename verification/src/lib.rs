//! Symbol-store publishing library.
//!
//! Collects compiled executables and debug-information files (ELF, PE, PDB,
//! Mach-O), derives the canonical symbol-store key for each from its embedded
//! identifier, deduplicates the candidates, and plans idempotent publishing to
//! one of several storage backends.

pub mod b2;
pub mod config;
pub mod dedup;
pub mod digest;
pub mod hexfmt;
pub mod inspect;
pub mod pathname;
pub mod publish;
pub mod sniff;
pub mod symstore;
