pub mod delete;
pub mod get_all;
pub mod get_one;
pub mod login;
pub mod update;
pub mod validate;
