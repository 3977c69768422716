//! Verified core of a terminal workspace: pane models, key handling and text rules.

pub mod text;
pub mod pane;
pub mod keys;
pub mod config;
pub mod app;
pub mod event;
pub mod filetree;
pub mod csv;
pub mod context;
pub mod transcript;
pub mod vars;
pub mod tabs;
pub mod layout;
pub mod pty;
pub mod llm;
pub mod plot;
pub mod diagram;
pub mod launch;
pub mod laws;
