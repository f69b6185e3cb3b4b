//! NekoLand: the decision logic of a desktop cat that chases a yarn ball.
//!
//! - `pet`: the cat's poses and frames, and the sprite sets they are drawn from;
//! - `toy`: the yarn ball's bounces, catches and frames;
//! - `behavior`: what the cat chases in each tick, by mode;
//! - `clips`: the clip tables of sprite mappings, and their editing;
//! - `rng`: the xorshift source of every random choice;
//! - `assets`, `icon`, `geometry`: catalogs, sheet colors, tray icons, screen bounds;
//! - `i18n`, `heat`, `text`: interface texts, the Twitch Heat address, string tests.

pub mod rng;
pub mod text;
pub mod i18n;
pub mod clips;
pub mod geometry;
pub mod pet;
pub mod toy;
pub mod behavior;
pub mod assets;
pub mod icon;
pub mod heat;
