
pub mod text;
pub mod date;
pub mod model;
pub mod i18n;
pub mod settings;
pub mod archive;
pub mod schedule;
pub mod updater;
pub mod window;
pub mod names;
pub mod tray;
pub mod favorites;
pub mod library;
pub mod thumbnails;
pub mod assets;
pub mod system;
pub mod aria2;
