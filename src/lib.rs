//! Verified core of a network-driven LED strip controller: the command
//! record and its compact binary form, the bounded channels that feed the
//! animator, the frames the animator renders, and the decision logic of the
//! link supervisor and of the publish/subscribe session.

pub mod cbor;
pub mod channel;
pub mod light;
pub mod link;
pub mod render;
pub mod session;
pub mod status;
