//! Verified core of a window-switching canvas overlay: decoding of mouse and
//! keyboard messages, carousel navigation over the open windows, the fade-in
//! animation, window filtering, and the integer geometry of the labels.
pub mod input;
pub mod navigation;
pub mod overlay;
pub mod text;
pub mod geometry;
pub mod window_list;
