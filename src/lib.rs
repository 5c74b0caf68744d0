pub mod alerts;
pub mod detector;
pub mod engine;
pub mod envelope;
pub mod labels;
pub mod types;
