//! Recognises the format of a byte buffer from the magic byte patterns it
//! carries at fixed offsets.

pub mod format;
pub mod riff;
pub mod rules;
pub mod signature;
pub mod standard;

pub use format::FileFormat;
pub use signature::{Rule, RuleTable, Signature, SignaturePart};
