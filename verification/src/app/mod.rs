pub mod middleware;
pub mod models;
pub mod pkg;
pub mod services;
pub mod utils;
