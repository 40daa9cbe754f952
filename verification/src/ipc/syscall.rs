//! System calls: numbers, error codes and the handlers' results.

pub mod numbers;
pub mod handler;
