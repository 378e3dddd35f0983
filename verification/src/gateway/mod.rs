pub mod database;
pub mod repository;
pub mod service;
