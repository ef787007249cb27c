mod chance;
pub mod grid_world;
pub mod policy;
pub mod snake_model;
pub mod snake_policy;
