//! Native shell of a desktop video-production application: the GPU preview
//! surface, the texture loader, the locale table, the settings store and the
//! command-line options.

pub mod cli;
pub mod config;
pub mod dialog;
pub mod graphics;
pub mod ini_file;
pub mod locale;
pub mod log_filter;
pub mod table;
pub mod trans;
pub mod ui;
