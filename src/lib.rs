//! Dashboard engine of an interactive intelligence console: action catalog and
//! palette scoring, execution plans, the output ring buffer and its sanitizer,
//! and the state machine and frame layout of the full-screen dashboard.

pub mod action_result;
pub mod actions;
pub mod dashboard;
pub mod events;
pub mod frame;
pub mod harness;
pub mod mcp;
pub mod mcp_dispatcher;
pub mod output;
pub mod state;
pub mod text;
pub mod theme;
pub mod tui_adapter;
