//! Building blocks of a small rendering demo: a cache of compiled shader
//! programs, the settings it is started with, and its error reporting.

pub mod config;
pub mod cursor;
pub mod depth;
pub mod errors;
pub mod input;
pub mod process;
pub mod resource;
pub mod shader;
pub mod text;
