//! The decisions of the Linux.do accelerator: what it asks of the operating system, what it leaves
//! on disk, what its command line does, and how its window behaves. Nothing here reads a file,
//! runs a command or draws a window: the library says what is to be done, and is told what came
//! of it.

pub mod address;
pub mod certificate;
pub mod cli;
pub mod command;
pub mod config;
pub mod decode;
pub mod failure;
pub mod file_path;
pub mod gui;
pub mod platform;
pub mod quoting;
pub mod state;
pub mod text;
