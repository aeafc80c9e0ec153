pub mod inject;
