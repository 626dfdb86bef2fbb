//! Broker page model: observed values, tables, orders and their checks.
pub mod business;
pub mod cancel_order;
pub mod helpers;
pub mod navigation;
pub mod ocr_navigation;
pub mod ocr_table;
pub mod order_validation;
pub mod panels;
pub mod preflight;
pub mod security_selection;
pub mod stage_order;
pub mod submit_order;
pub mod types;
