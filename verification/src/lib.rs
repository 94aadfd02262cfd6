//! Decision and formatting logic of the Dream Skin theme manager.

pub mod text;
pub mod json;
pub mod cdp;
pub mod dream_skin;
pub mod launch;
pub mod manager;
pub mod start;
