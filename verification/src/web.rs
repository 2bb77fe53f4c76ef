//! The web interface: the events it sends to browsers, the JSON views of conversations
//! and workers, the REST answers, and the handling of WebSocket commands.
pub mod api;
pub mod events;
pub mod serialization;
pub mod websocket;
