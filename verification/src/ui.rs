//! What the user interface is made of, as far as the firmware decides on it:
//! the top-level views, the keys of an input, fonts, and the placing of
//! pictures.

pub mod dom;
pub mod font;
pub mod image;
pub mod menu;
pub mod settings;
pub mod view;
