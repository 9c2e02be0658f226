//! The decisions of the Weasel input method: which keys, commands, layouts and
//! clicks an input session accepts, what the renderer shows, and what each
//! window, queue and connection does next.
pub mod admission;
pub mod backend;
pub mod client_connection;
pub mod client_session;
pub mod deploy_drag;
pub mod deploy_job;
pub mod deploy_telemetry;
pub mod deploy_ui;
pub mod engine;
pub mod geometry;
pub mod json;
pub mod librime;
pub mod list;
pub mod message;
pub mod notifications;
pub mod presentation;
pub mod preview;
pub mod preview_window;
pub mod renderer_bridge;
pub mod rpc;
pub mod server;
pub mod session_route;
pub mod settings;
pub mod silent_deploy;
pub mod state;
pub mod text;
pub mod theme;
pub mod theme_abc;
pub mod theme_adapter;
pub mod theme_api;
pub mod theme_dll;
pub mod theme_eleven;
pub mod theme_ten;
pub mod theme_void;
pub mod theme_window;
pub mod ui_runtime;
pub mod wasm_metadata;
pub mod windows_security;
pub mod worker;
pub mod xaml_host;
