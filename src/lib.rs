//! Small utilities for console and file logging: string padding and
//! truncation, nested error rendering, time conversion and a structured
//! logger core (level filter, record renderer, entry buffer and a day
//! rotating file sink).
pub mod buffer;
pub mod clock;
pub mod dispatch;
pub mod entry;
pub mod error;
pub mod filter;
pub mod level;
pub mod logger;
pub mod render;
pub mod sink;
pub mod style;
pub mod text;
pub mod time;
