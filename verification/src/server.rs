pub mod account_error;
pub mod account_manager;
pub mod connection;
