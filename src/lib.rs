//! Supervised execution of test programs: argument templates, output capture,
//! exit classification and the registry of tests to run.
pub mod capture;
pub mod checks;
pub mod disposition;
pub mod manager;
pub mod template;
pub mod text;
