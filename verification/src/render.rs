pub mod injection;
