//! Parts that several screens share.

pub mod image_viewer;

pub use image_viewer::GlassImageViewer;
