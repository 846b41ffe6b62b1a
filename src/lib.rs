pub mod action;
pub mod address;
pub mod engine;
pub mod error;
pub mod finalizer;
pub mod laws;
pub mod repo;
