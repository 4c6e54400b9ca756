//! Campaign bookkeeping, Google Drive synchronisation planning and display
//! state for a tabletop image display program.
pub mod campaign;
pub mod config;
pub mod errors;
pub mod gd_client;
pub mod google_drive;
pub mod manage_campaign;
pub mod setup;
pub mod text;
pub mod ui;
