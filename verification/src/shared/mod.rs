pub mod config;
pub mod context;
pub mod services;
pub mod utils;
