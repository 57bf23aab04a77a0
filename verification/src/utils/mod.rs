pub mod arena;
pub mod config;
pub mod error;
pub mod names;
pub mod text;
pub mod name_index;
