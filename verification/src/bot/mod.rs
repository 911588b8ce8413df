pub mod laws;
pub mod protocol;
pub mod websocket;
