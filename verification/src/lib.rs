//! Core of a stereo head-mounted-display session driver: session state
//! derivation from runtime events, the per-frame wait/acquire/render/release
//! protocol, pixel-format negotiation across three format vocabularies, and
//! frame-synchronized hand-joint sampling.
//!
//! All blocking calls against the XR runtime (event polling, frame pacing,
//! image acquisition, pose location) are performed by the embedding; this
//! crate holds the decision logic and the session-owned state, verified.

pub mod config;
pub mod event;
pub mod format;
pub mod frame;
pub mod hand;
pub mod math;
pub mod session;
pub mod surface;
