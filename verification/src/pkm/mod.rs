//! Writing to the knowledge base.
pub mod obsidian;
