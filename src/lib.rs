//! Small building blocks for tabletop and incremental games: experience
//! tables and trackers, difficulty checks, dice, affinities, colors,
//! resources and idle-game counters.

pub mod affinity;
pub mod color_hints;
pub mod common;
pub mod counter;
pub mod difficulty;
pub mod race;
pub mod resource;
pub mod roll;
pub mod system;
pub mod table;
mod text;
pub mod tracker;

pub use affinity::Affinity;
pub use color_hints::ColorHint;
pub use counter::CountingObject;
pub use difficulty::{DifficultyClass, DifficultyClassResult, RollStatus};
pub use race::Race;
pub use resource::{GameResource, Resource};
pub use roll::{Dice, Die};
pub use system::ExperienceSystem;
pub use table::ExperienceLevelUpTable;
pub use tracker::ExperienceTracker;
