pub mod cache;
pub mod endpoints;
pub mod http;
pub mod kinds;
pub mod model_conversion;
pub mod models;
