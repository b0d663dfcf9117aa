//! Validates parsed 3D scene documents against the semantic rules that decide
//! whether a model file will import cleanly into a game-engine pipeline.
//!
//! The library works on a plain-value scene model (see [`scene`]): an adapter
//! outside the library walks the externally parsed document and fills that
//! model in.  Floating-point quantities are carried as IEEE 754 binary64 bit
//! patterns (see [`binary64`]) together with a pre-rendered display string, so the
//! rules' comparisons are plain integer logic.

pub mod binary64;
pub mod checks;
pub mod driver;
pub mod geometry;
pub mod report;
pub mod scene;
pub mod strutil;
pub mod utils;
