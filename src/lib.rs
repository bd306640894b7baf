//! A plugin-side call-dispatch library: the return-value encoding that crosses
//! the host boundary, the lifecycle of the negotiated session, the message
//! envelopes exchanged with the host, and the dispatcher that routes a
//! `(method, peer, args)` triple to a handler.
pub mod errno;
pub mod codec;
pub mod json;
pub mod desc;
pub mod handler;
pub mod peer;
pub mod init;
pub mod call;
pub mod template;
pub mod template_desc;
pub mod plog;
