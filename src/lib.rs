pub mod controller;
pub mod models;
