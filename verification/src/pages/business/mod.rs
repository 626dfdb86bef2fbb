//! Broker tables read into business records.
pub mod columns;
pub mod normalize;
pub mod tables;
pub mod types;
