pub mod addons;
pub mod cmd;
pub mod configs;
pub mod error;
pub mod prime_down;
pub mod render;
pub mod text;
pub mod utils;
