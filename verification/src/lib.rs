pub mod cleaner;
pub mod config;
pub mod error;
pub mod host;
pub mod manifest;
pub mod project;
pub mod scanner;
