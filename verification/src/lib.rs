//! A terminal pager core: it decides whether a document is printed or paged,
//! computes which lines one page shows, builds the frames to draw and maps key
//! presses to page changes. Reading files and the terminal is the caller's part.

pub mod arguments;
pub mod decimal;
pub mod document;
pub mod geometry;
pub mod input;
pub mod mode;
pub mod render;
pub mod session;
