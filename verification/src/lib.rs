pub mod action;
pub mod client;
pub mod collections;
pub mod diff;
pub mod dto;
pub mod error;
pub mod keys;
pub mod layout;
pub mod log;
pub mod localization;
pub mod mapper;
pub mod memory;
pub mod model;
pub mod repository;
pub mod script;
pub mod state;
pub mod sync;
pub mod text;
pub mod url;
