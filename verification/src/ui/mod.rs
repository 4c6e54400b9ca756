pub mod add_campaign;
pub mod control_window;
pub mod display_window;
pub mod error_dialog;
pub mod googledrive_connect;
pub mod options;
pub mod select_monitor;
