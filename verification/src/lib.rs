//! Verified core of the stock operator: request validation, table
//! normalization, trade preflight decisions and the live-operation lifecycle.
pub mod ax;
pub mod cli;
pub mod config;
pub mod desktop;
pub mod http_api;
pub mod live_ops;
pub mod live_protocol;
pub mod operator_service;
pub mod operator_types;
pub mod order;
pub mod pages;
pub mod ratio;
pub mod storage;
pub mod text;
