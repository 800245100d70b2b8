pub mod text;
pub mod diagnostic;
pub mod rules;
pub mod config;
pub mod scoring;
pub mod reporter;
pub mod project;
pub mod engine;
pub mod analysis;
pub mod syntax;
pub mod calls;
pub mod walk;
