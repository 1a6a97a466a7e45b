pub mod classify;
pub mod evaluate;
pub mod extract;
pub mod laws;
pub mod model;
pub mod options;
pub mod plan;
