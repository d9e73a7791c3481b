//! Error taxonomy, response rendering and a bounded periodic event emitter
//! for a small request-handling service, with the answers of its endpoints.

pub mod errors;
pub mod handlers;
pub mod models;
pub mod stream;
pub mod text;
pub mod utils;
