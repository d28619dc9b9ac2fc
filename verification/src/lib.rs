pub mod builder;
pub mod commands;
pub mod dates;
pub mod parser;
pub mod plugin;
pub mod plugins;
pub mod string_map;
pub mod text;
