//! Geometry, scene decisions and configuration rules of a terminal city
//! skyline, with their contracts.

pub mod config;
pub mod skyline;
pub mod facade;
pub mod scene;
pub mod identity;
pub mod load;
pub mod street;
pub mod backdrop;
pub mod text;
pub mod paint;
