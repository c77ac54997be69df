//! The public surface of C headers as manifests.
//!
//! A parser hands over the declarations of each header ([`grammar`]). The
//! crate normalizes their types ([`normalize`]), converts the declarations
//! into records ([`convert`]), decides which of them a manifest takes up
//! ([`policy`]) and puts the manifest of each header of a directory
//! ([`directory`]) together ([`assemble`]). What holds of every manifest is
//! stated and proved in [`laws`].

pub mod assemble;
pub mod convert;
pub mod directory;
pub mod grammar;
pub mod laws;
pub mod manifest;
pub mod model;
pub mod normalize;
pub mod policy;
pub mod text;

pub use crate::directory::CHeaderDirectory;
