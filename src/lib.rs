//! Turns a personal-history record into an ordered sequence of layout blocks,
//! chosen by a named template, and decides where the rendering font comes from.

pub mod clean;
pub mod cli;
pub mod default;
pub mod document;
pub mod error;
pub mod font;
pub mod pipeline;
pub mod record;
pub mod registry;
pub mod template;
pub mod text;
