//! A command-line driver for a term-rewriting language: it encodes a source
//! string as a graph-native character list, invokes an embedded entry point
//! on it through an external graph-reduction engine, and decodes the reduced
//! graph back into text.

pub mod cli;
pub mod codec;
pub mod engine;
pub mod pipeline;
pub mod readback;
pub mod term;
