pub mod download;
pub mod read_list;
pub mod syntax;
