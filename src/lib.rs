//! Resolution of a game file to an emulator core and assembly of the frontend command line.

pub mod arguments;
pub mod command;
pub mod config;
pub mod document;
pub mod file;
pub mod pattern;
pub mod resolve;
pub mod retroarch;
pub mod rules;
pub mod settings;
pub mod text;
