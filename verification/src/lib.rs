//! Moves application data into a workspace and links it back.
pub mod commands;
pub mod config;
pub mod dir_ops;
pub mod error;
pub mod fs_utils;
pub mod link_ops;
pub mod link_status;
pub mod model;
pub mod path_resolver;
pub mod platform;
pub mod request_builder;
pub mod text;
pub mod workspace;
