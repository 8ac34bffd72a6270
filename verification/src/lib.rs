//! Decision and text logic of a macOS screen-control agent.
pub mod text;
pub mod config;
pub mod ai;
pub mod json;
pub mod session;
pub mod stream;
pub mod shortcut;
pub mod display;
pub mod screenshot;
pub mod process;
pub mod app_manager;
pub mod document_parser;
pub mod screen_agent_v2;
pub mod tools;
pub mod conversation;
pub mod screen_agent;
pub mod mouse;
pub mod accessibility;
pub mod task_loop;
pub mod tool_catalog;
pub mod keyboard;
pub mod stitch;
