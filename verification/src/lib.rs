pub mod circuit_breaker;
pub mod circuit_breaker_error;
pub mod model;
