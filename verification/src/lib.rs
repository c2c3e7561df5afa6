//! Verified core of a relay-based encrypted direct-message bot that turns
//! recognized video references into download jobs and replies to the sender.
//!
//! The crate holds the decision logic: recognizing a video reference in a
//! decrypted message ([`extract`]), keeping the subscription filter in step
//! with the authorized-sender list ([`reconcile`]), classifying inbound
//! events ([`intake`]), building the downloader invocation and the reply
//! texts ([`dispatch`]), the encrypted payload codec ([`codec`]), profile
//! metadata serialization ([`metadata`]) and settings defaults
//! ([`settings`]). Network, file and process I/O live outside this crate.

pub mod codec;
pub mod dispatch;
pub mod extract;
pub mod intake;
pub mod metadata;
pub mod reconcile;
pub mod settings;
