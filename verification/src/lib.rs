//! Rules of a small city registry service: the data model, the store commands,
//! the lookup, ratio and registration services and the mapping of their
//! outcomes to HTTP responses, each with a machine-checked contract.

pub mod config;
pub mod city;
pub mod store;
pub mod lookup;
pub mod ratio;
pub mod registration;
pub mod http;
pub mod decimal;
pub mod fizzbuzz;
pub mod greeting;
pub mod students;
pub mod json_data;
pub mod guarantees;
