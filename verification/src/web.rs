//! What the dashboard shows and who may see it. Serving it is the caller's
//! business; here are the answers it serves and the rules of access.

pub mod auth;
pub mod handlers;
pub mod state;
pub mod websocket;
