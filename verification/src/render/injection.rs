pub mod render_inject;
