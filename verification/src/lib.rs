//! Verified core of a disk-space reclamation tool for Gentoo systems.
//!
//! The library classifies filesystem entries under a fixed catalog of
//! well-known locations as disposable or not, relative to the running
//! kernel version, and accounts the bytes that a cleanup run reclaims.
//! All filesystem reading and deletion is performed by the surrounding
//! application; the library makes every decision on plain values.

pub mod checks;
pub mod cleaner;
pub mod entry;
pub mod folder;
pub mod logger;
pub mod text;
