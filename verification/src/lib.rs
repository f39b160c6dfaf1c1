//! Form handling, validation and page rendering for a personal records registry.

pub mod form;
pub mod html;
pub mod http;
pub mod markup;
pub mod text;
