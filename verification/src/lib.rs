//! A small chat-bot library: a verified command dispatcher for a fixed set of
//! text commands, together with the JSON lookup used by the image-fetch reply.
//!
//! The gateway connection, HTTP transport and runtime live outside this crate;
//! the library decides, for each inbound message, which outbound replies are
//! produced and with what content.

pub mod dispatch;
pub mod json;
pub mod reply;
