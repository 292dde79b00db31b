pub mod app;
pub mod config;
pub mod util;
mod clock;
