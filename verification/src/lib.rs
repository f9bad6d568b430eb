//! A library for recording Bilibili live rooms: stream selection, file
//! naming, download bookkeeping, reconnection policy, the watched rooms'
//! state, settings and their migration, configuration, and logging.
pub mod text;
pub mod utils;
pub mod settings;
pub mod error;
pub mod api;
pub mod external;
pub mod logger;
pub mod context;
pub mod downloader;
pub mod state;
pub mod config;
pub mod tray;
pub mod ui;
