//! Shopping carts and the service that keeps them.

pub mod cart;
pub mod repository;
pub mod service;
