//! A small convolutional network that classifies handwritten digits. What
//! is verified is the shape of everything that flows through it, the order
//! in which its layers are applied, and that no layer is handed what it
//! cannot take.

pub mod config;
pub mod engine;
pub mod inference;
pub mod model;
pub mod shape;
pub mod training;
