//! A drifting, twinkling sparkle field on a fixed canvas.
//!
//! All quantities are integers in fine units: positions in nanopixels,
//! radii in millipixels, speeds in thousandths of the unit drift rate,
//! and time (frame deltas and twinkle phase) in microseconds.

pub mod field;
pub mod laws;
mod random;
pub mod scene;
pub mod sparkle;
