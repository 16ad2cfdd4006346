//! A small backup tool's core: configuration values, archive naming,
//! file filtering and progress bookkeeping, with their contracts.

pub mod text;
pub mod cli;
pub mod error;
pub mod compression_level;
pub mod disk;
pub mod clock;
pub mod config;
pub mod file_filter;
pub mod archive;
pub mod progress_bar;
