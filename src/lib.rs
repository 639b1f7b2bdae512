pub mod batch;
pub mod collections;
pub mod entities;
pub mod error_code;
pub mod error_names;
pub mod exp_helper;
pub mod laws;
pub mod reply;
