//! Verified core of a small project builder: it keeps a list of source
//! projects, works out which build commands to run for one of them, and
//! reports on their progress.
#![allow(non_snake_case)]

pub mod text;
pub mod paths;
pub mod times;
pub mod pkgbuild;
pub mod process;
pub mod runner;
pub mod project;
pub mod plan;
pub mod config;
pub mod ui;
pub mod laws;
