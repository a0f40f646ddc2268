//! Customizable SVG badges: the badge model, its builders and presets, and the
//! decisions that rendering takes, with their contracts.

pub mod badge;
pub mod clock;
pub mod formats;
pub mod laws;
pub mod param;
pub mod text;

pub use badge::Badge;
pub use param::{Color, Period, Style};
