//! A single-line status display ("statusline") renderer: widgets turn session
//! telemetry into short text fragments, and a layout engine assembles the
//! visible ones into one width-bounded, styled line per configured line group.

pub mod cache;
pub mod config;
pub mod data;
pub mod layout;
pub mod render;
pub mod resolve;
pub mod text;
pub mod widgets;
