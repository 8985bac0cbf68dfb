//! Job lifecycle, progress-line parsing and screen state for a terminal
//! front-end that launches training and inference runs.

pub mod command;
pub mod config;
pub mod drain;
pub mod inference;
pub mod job;
pub mod model;
pub mod number;
pub mod progress;
pub mod project;
pub mod result;
pub mod scan;
pub mod screen;
pub mod text;
pub mod training;
pub mod ui;
