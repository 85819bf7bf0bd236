//! The fixed names and limits of the application, in one place.

pub mod app;
pub mod booth;
pub mod files;
pub mod tags;
