//! Filename routing, printer option parsing and job bookkeeping for an
//! automated photo printing workflow.

pub mod text;
pub mod parser;
pub mod models;
pub mod jobs;
pub mod labels;
pub mod printing;
pub mod windows_printing;
pub mod watcher;
pub mod cups;
pub mod macos;
pub mod windows_print;
pub mod commands;
pub mod pdf_image;
