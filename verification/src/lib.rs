//! Building blocks of a GPU decoder: shader templates, kernel launch
//! geometry and model configuration.
pub mod text;
pub mod template;
pub mod template_laws;
pub mod kernels;
pub mod json;
pub mod config;

