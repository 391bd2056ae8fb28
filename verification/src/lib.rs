//! The core of an image-enhancement tool that drives an inference engine:
//! the catalog of the engine's models, the resolution of a model name, the
//! protocol of one job, and the calls into the engine.

pub mod catalog;
pub mod engine;
pub mod job;
pub mod resolver;
pub mod text;
