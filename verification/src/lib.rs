pub mod admin;
pub mod app_info;
pub mod command;
pub mod connection_error;
pub mod deposit;
pub mod file_handler;
pub mod installer_types;
pub mod laws;
pub mod paths;
pub mod shared_folder_connection;
pub mod text;
