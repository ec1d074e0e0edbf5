pub mod config;
pub mod discord;
pub mod document;
pub mod placeholders;
pub mod presence;
