//! AI authorization, purchase policy, audit, and scoped purchasing.

pub mod errors;
pub mod facts;
pub mod policy;
pub mod repository;
pub mod scope;
pub mod sanitize;
pub mod action;
pub mod authorization;
pub mod agent;
pub mod audit_laws;
pub mod stack;
