//! Autoregressive text generation against a preloaded language-model runtime:
//! generation settings, context sizing, batch construction and the decode loop.
pub mod float_bits;
pub mod float_value;
pub mod gen_config_builder;
pub mod model;
pub mod prompt_builder;
pub mod sampling;
