//! Local control of running Warp app instances: the protocol vocabulary, the action
//! catalog, credential issuance and verification, discovery records and instance selection,
//! the `warpctrl` command model, the app-side checks behind the loopback endpoints, and the
//! app pieces they drive (Scripting settings, the zoom indicator, managed MCP resolution,
//! the notebook pane, the view context and the terminal wrapper's event loop).
pub mod protocol;
pub mod catalog;
pub mod auth;
pub mod discovery;
pub mod selection;
pub mod selectors;
pub mod settings;
pub mod resolver;
pub mod bridge;
pub mod handlers;
pub mod permissions;
pub mod client;
pub mod cli_args;
pub mod cli_commands;
pub mod control_commands;
pub mod warpctrl;
pub mod zoom;
pub mod managed_mcp;
pub mod managed_mcp_client;
pub mod scripting;
pub mod agent_resume;
pub mod view_context;
pub mod notebook;
pub mod event_loop;
