pub mod game;
pub mod types;
pub mod ui;
