//! Finds build artifacts and user-level caches that can be reclaimed, and
//! decides what is listed, kept, ordered and deleted. Walking the file system,
//! prompting, printing and deleting are left to the program around it.
pub mod cache;
pub mod cache_scanner;
pub mod cleaner;
pub mod cli;
pub mod dto;
pub mod project;
pub mod scanner;
pub mod script;
pub mod sorting;
pub mod state;
pub mod summary;
pub mod sys;
pub mod text;
pub mod web;
