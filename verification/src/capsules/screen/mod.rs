pub mod types;
pub mod screen;
