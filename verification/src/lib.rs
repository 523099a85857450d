pub mod client;
pub mod err;
pub mod frame;
pub mod pdu;
pub mod server;
pub mod store;
pub mod transaction;
pub mod wire;
