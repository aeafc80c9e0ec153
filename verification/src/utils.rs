pub mod download_misc;
pub mod file;
pub mod url;
pub mod validation;
