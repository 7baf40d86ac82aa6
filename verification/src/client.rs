pub mod client_error;
pub mod session;
