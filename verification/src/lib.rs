//! A retained-mode 2D layout engine verified with Verus, together with the
//! tile and unit tables of the game that is drawn with it.
//!
//! Every length is a signed fixed-point number: a count of millionths of the
//! screen (see [`number`]). All arithmetic saturates, so no function of this
//! crate panics or overflows.

pub mod number;
pub mod error;
pub mod units;
pub mod location;
pub mod handles;
pub mod tile;
pub mod unicode;
pub mod sprite;
pub mod bitmap_text;
pub mod stack;
pub mod flex;
pub mod wrap;
pub mod grid;
pub mod border_grid;
pub mod node;
pub mod measured;
pub mod measure;
pub mod arrange;
pub mod order;
pub mod trace;
pub mod batch;
pub mod scene;
pub mod builder;
pub mod sprite_border;
pub mod terrain;
pub mod terrain_rules;
pub mod game;
