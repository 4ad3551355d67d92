//! Background tasks backed by an SQLite queue table: configuration and the
//! statements that submit, poll and acknowledge tasks.
pub mod conf;
pub mod statements;
