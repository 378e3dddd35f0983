pub mod boundary;
pub mod controller;
