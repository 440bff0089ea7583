//! A to-do list manager: named lists of items with a status, a priority and an
//! optional due date, the order in which a list is shown, and the names under
//! which lists are stored.

pub mod error;
pub mod text;
pub mod time;
pub mod item;
pub mod list;
pub mod display;
pub mod storage;
pub mod menu;
