//! Static inspection of Android application packages: package identity, SDK
//! bounds, permissions, signing certificate, launcher icon and file digests.
//!
//! The package arrives as bytes; everything here is computed from them and
//! from the output of an external decoder, which the caller runs.

pub mod text;
pub mod archive;
pub mod digest;
pub mod clock;
pub mod manifest;
pub mod package_info;
pub mod permission;
pub mod security;
pub mod signature;
pub mod icon;
pub mod badging;
pub mod decoder;
pub mod summary;
pub mod parser;
