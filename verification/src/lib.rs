//! Connection-setup configuration for a peer-to-peer media/data stack.
//!
//! The central type is [`Configuration`]: a value object holding ICE server
//! endpoints, transport/bundling/mux/SDP policies, a target peer identity,
//! DTLS certificates and an ICE candidate prefetch pool size. Its one derived
//! read, [`Configuration::get_ice_servers`], hands out a copy of the server
//! list in which every `stun`-prefixed URL is cut at its first `?`, so that a
//! strict downstream URL parser never sees a spurious query component.

pub mod configuration;
pub mod ice_server;
pub mod policy;
pub mod sanitize;

pub use configuration::Configuration;
pub use ice_server::ICEServer;
pub use policy::{BundlePolicy, ICETransportPolicy, RTCPMuxPolicy, SdpPolicy};
