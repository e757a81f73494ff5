//! Interactive chat menus: a controller that routes interaction events to
//! the controls of one message, and the canteen menu built on top of it.

pub mod cache;
pub mod error;
pub mod freiburg;
pub mod layout;
pub mod menu;
pub mod place;
pub mod text;
pub mod trace;
pub mod weekday;
