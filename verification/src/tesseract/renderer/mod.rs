//! Renderers that turn recognition results into documents.

pub mod pdf_renderer;
