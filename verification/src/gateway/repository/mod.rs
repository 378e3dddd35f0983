pub mod signup_process;
pub mod token;
pub mod user;
