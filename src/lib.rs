pub mod laws;
pub mod model;
