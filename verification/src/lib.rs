//! Verified core of the TA-TA Switch tray tool: session-profile bookkeeping,
//! settings persistence, localisation lookup, path detection and the tray
//! menu model.

pub mod text;
pub mod paths;
pub mod settings_manager;
pub mod account_manager;
pub mod path_manager;
pub mod i18n_manager;
pub mod tray_menu;
pub mod dialogs;
pub mod tray_flow;
