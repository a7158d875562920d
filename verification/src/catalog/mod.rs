//! Product catalog and inventory.

pub mod product;
pub mod product_variant;
pub mod inventory;
pub mod repository;
pub mod service;
