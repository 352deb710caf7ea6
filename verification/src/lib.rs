pub mod app;
pub mod domain;
pub mod laws;
pub mod letters;
mod rng;
pub mod text;
pub mod view;
