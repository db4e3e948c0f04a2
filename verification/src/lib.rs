pub mod acp;
pub mod agents;
pub mod attachments;
pub mod capabilities;
pub mod chats;
pub mod cli;
pub mod config;
pub mod json;
pub mod launch;
pub mod laws;
pub mod paths;
pub mod privacy;
pub mod projects;
pub mod session;
pub mod sort;
pub mod text;
pub mod tray;
pub mod usage;
pub mod toml_doc;
