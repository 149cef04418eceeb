//! A streaming, chunk-resumable HTML tag scanner with an ambiguity guard and
//! a tree-builder feedback simulator.
pub mod base;
pub mod tag_name;
pub mod ambiguity_guard;
pub mod tree_builder_simulator;
pub mod eager;
pub mod tokenizer;
pub mod rewriter;
pub mod laws;
