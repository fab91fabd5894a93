pub mod config;
pub mod driver;
pub mod normalize;
pub mod pipeline;
pub mod project;
