//! Resolution of authored dungeon level descriptions into fully resolved,
//! queryable level models, plus synthesis of primitive placements from them.
//!
//! All world-space measurements in this crate are integers in thousandths of
//! a world unit ("milli-units"), so a wall height of `4000` is four world
//! units tall. This keeps every computation exact.

pub mod error;
pub mod level;
pub mod num;
pub mod palettes;
pub mod resolve;
pub mod spawning;
pub mod stairs;
pub mod synthesis;
pub mod text;
pub mod tiles;
