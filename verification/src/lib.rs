//! State machine, layout and text rules of the clauth terminal interface.

pub mod chain;
pub mod chain_view;
pub mod chrome;
pub mod clock;
pub mod delegates;
pub mod detail_view;
pub mod dialogs;
pub mod events;
pub mod feed;
pub mod figures;
pub mod footer;
pub mod forms;
pub mod help;
pub mod host;
pub mod input;
pub mod key;
pub mod laws;
pub mod layout;
pub mod menu;
pub mod modal_box;
pub mod modals_view;
pub mod model;
pub mod nav;
pub mod overview_view;
pub mod paint;
pub mod picker;
pub mod plugin;
pub mod plugin_view;
pub mod requests;
pub mod session;
pub mod settings;
pub mod settings_view;
pub mod settle;
pub mod setup;
pub mod setup_view;
pub mod state;
pub mod status_view;
pub mod tabs;
pub mod text;
pub mod tokens;
pub mod usage;
pub mod wrapping;
