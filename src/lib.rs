pub mod error;
pub mod extract;
pub mod laws;
pub mod manager;
pub mod models;
pub mod proxy;
pub mod state;
pub mod text;
