pub mod providers;
pub mod settings;
