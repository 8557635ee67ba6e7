//! RestateServices.

pub mod controller;
