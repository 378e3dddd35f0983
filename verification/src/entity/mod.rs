pub mod auth_context;
pub mod auth_strategy;
pub mod signup_process;
pub mod user;
