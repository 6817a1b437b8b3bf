//! Odin language support for the Zed editor: labels for completions and symbols, the search for
//! the language server and the debug adapter, and the configuration of debug sessions.
pub mod adapter;
pub mod codelldb;
pub mod debug;
pub mod extension;
pub mod formatter;
pub mod install;
pub mod json;
pub mod labels;
pub mod locator;
pub mod ols;
pub mod platform;
pub mod settings;
pub mod text;
