pub mod pd_inject_css;
