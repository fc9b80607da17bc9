pub mod config;
pub mod errors;
pub mod middleware;
pub mod models;
pub mod providers;
pub mod session;
pub mod service;
