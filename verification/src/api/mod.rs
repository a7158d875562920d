//! What the HTTP API computes for each request, apart from the transport:
//! wire enums, request identity, error mapping and response bodies.

pub mod enums;
pub mod failure;
pub mod identity;
pub mod errors;
pub mod directory;
pub mod cart;
pub mod product;
pub mod seller;
pub mod checkout;
pub mod order;
pub mod ai;
