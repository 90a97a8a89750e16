//! The user interface, without its pictures: what it shows, what its buttons do, and how it
//! follows the service.

pub mod action;
pub mod app;
pub mod fonts;
pub mod palette;
pub mod panels;
pub mod settings;
pub mod summary;
pub mod tray;
pub mod window;
