//! Discovery backends and the iterator that consumes them in turn.
pub mod http;
pub mod chain;
