//! A screenshot-to-markup client: it frames the chat-completion request that
//! carries a screenshot to a remote model, reads the generated markup out of
//! the reply, and decides the few reactions of the tray icon around it.

pub mod exchange;
pub mod greeting;
pub mod json;
pub mod request;
pub mod response;
pub mod tray;
