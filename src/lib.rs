pub mod collector;
pub mod error;
pub mod models;
pub mod normalize;
pub mod scan;
pub mod text;
