//! Validation and decision logic of a small daemon that switches an X10
//! fan off on request.

pub mod actuator;
pub mod config;
pub mod error;
pub mod notice;
