pub mod clock;
pub mod ids;
pub mod text;
pub mod money;
pub mod catalog;
pub mod cart;
pub mod ai_agent;
pub mod api;
pub mod error_code;
pub mod worker;
