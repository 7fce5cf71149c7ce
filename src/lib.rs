pub mod text;
pub mod status;
pub mod button;
pub mod timeline;
pub mod config;
pub mod metadata;
pub mod session;
pub mod bridge;
