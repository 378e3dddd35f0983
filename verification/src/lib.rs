//! Signup and user management core: value objects, the signup process state
//! machine, the use cases as step machines over gateway commands, and the
//! controller's request handling decisions.

pub mod adapter;
pub mod entity;
pub mod gateway;
pub mod usecase;
pub mod value_object;
