//! The model of a dual-panel file manager: directory listings and their
//! ordering, panel navigation, and the state machines behind the transfer,
//! delete and option dialogs. Everything here works on plain values; reading
//! directories, moving bytes and drawing are left to the caller.

pub mod config;
pub mod delete;
pub mod entries;
pub mod help;
pub mod keys;
pub mod listing;
pub mod menu;
pub mod mkdir;
pub mod order;
pub mod panel;
pub mod panel_options;
pub mod progress;
pub mod path;
pub mod sort;
pub mod sorting_dialog;
pub mod table_view;
pub mod text;
pub mod transfer;
pub mod ui;
pub mod user_interface;
pub mod viewer;
