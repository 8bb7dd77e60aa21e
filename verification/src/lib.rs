pub mod agents;
pub mod cli;
pub mod error;
pub mod evaluator;
pub mod runner;
pub mod task;
pub mod text;
