pub mod menu;
pub mod settings;
