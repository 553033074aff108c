//! Recent-items tray logic: a bounded recency cache of recordings and
//! screenshots, square thumbnails, and the projection of both into a menu.

pub mod text;
pub mod i18n;
pub mod thumbnail;
pub mod item;
pub mod cache;
pub mod menu;
pub mod bridge;
pub mod settings;
