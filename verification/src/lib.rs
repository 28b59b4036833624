pub mod api;
pub mod envelope;
pub mod json;
pub mod locator;
pub mod sign;
