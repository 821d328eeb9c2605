//! Navigation, listing and menu logic of the Zoe file manager.

pub mod text;
pub mod paths;
pub mod history;
pub mod listing;
pub mod cd;
pub mod menus;
pub mod theme;
