//! A terminal system-fetch display: host facts formatted and laid out beside
//! a crab mascot, with verified formatting, layout and fallback rules.
pub mod art;
pub mod engine;
pub mod facts;
pub mod format;
pub mod layout;
pub mod paint;
pub mod raster;
pub mod theme;

pub use format::format_bytes;
pub use format::format_uptime;
pub use format::progress_bar;
pub use theme::Theme;
pub use theme::ThemeColor;
