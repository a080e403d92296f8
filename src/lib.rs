//! Read-only acquisition, categorised inventory and export of a storage
//! source: the verified decision logic behind the `tap` tool.

pub mod text;
pub mod names;
pub mod categories;
pub mod config;
pub mod scanner;
pub mod export;
pub mod probe;
pub mod acquire;
pub mod tui;
pub mod devices;
