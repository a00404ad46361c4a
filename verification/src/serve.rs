//! What the service decides for each request, apart from any transport.

pub mod item;
pub mod owner;
pub mod possession;
pub mod response;
pub mod serve_main;
pub mod trade;
