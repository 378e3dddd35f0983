pub mod authentication;
pub mod email;
