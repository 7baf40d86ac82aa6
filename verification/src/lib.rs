pub mod client;
pub mod keyed_map;
pub mod persistence;
pub mod protocol;
pub mod server;
