pub mod text;
pub mod namespace;
pub mod harvester;
pub mod mode;
pub mod context;
pub mod tools;
pub mod laws;
