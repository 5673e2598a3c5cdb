pub mod body;
pub mod config;
pub mod data;
pub mod errors;
pub mod get;
pub mod patch;
pub mod pattern;
pub mod put;
pub mod request;
pub mod transport;
pub mod url;
