//! Core logic of the pdf2zh terminal front end and its desktop backend bridge.

pub mod action;
pub mod app;
pub mod backend;
pub mod config;
pub mod desktop;
pub mod dispatch;
pub mod events;
pub mod form_view;
pub mod json;
pub mod laws;
pub mod ordered_map;
pub mod overlay;
pub mod panels;
pub mod platform;
pub mod protocol;
pub mod session;
pub mod settings;
pub mod text;
pub mod toml_file;
pub mod toml_model;
pub mod translation;
pub mod update;
pub mod usage;
