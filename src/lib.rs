//! Layout caching for text paragraphs, and the ordering of redraw requests.
pub mod alignment;
pub mod geometry;
pub mod text;
pub mod time;
pub mod monospace;
pub mod paragraph;
pub mod redraw_request;
