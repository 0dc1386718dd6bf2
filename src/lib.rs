pub mod command;
pub mod compiler;
pub mod config;
pub mod cycler;
pub mod document;
pub mod frame;
pub mod log_feed;
pub mod registry;
pub mod settings;
pub mod stats;
pub mod text;
pub mod ui_state;
pub mod update;
pub mod warp;
pub mod widgets;
