//! The generation engine: result and error types, the token batch, and the
//! decode loop as a step function.
pub mod batch;
pub mod generation;
pub mod model_builder;
pub mod progress;
pub mod session;
pub mod transcript;
