//! Policy enumerations read by the ICE agent and the SDP offer/answer engine.
//!
//! These are plain data: this component stores them and hands them out
//! unchanged; their interpretation belongs to the downstream subsystems.

use vstd::prelude::*;

verus! {

/// Restricts which ICE candidate types the agent is allowed to use.
#[derive(Clone, Copy, Debug, PartialEq, Eq, Structural)]
pub enum ICETransportPolicy {
    /// Any candidate type may be used.
    All,
    /// Only relay (TURN) candidates may be used.
    Relay,
}

impl Default for ICETransportPolicy {
    /// With no explicit choice, every candidate type is allowed.
    fn default() -> (r: Self)
        ensures
            r == ICETransportPolicy::All,
    {
        ICETransportPolicy::All
    }
}

/// Media-bundling strategy used while gathering ICE candidates.
#[derive(Clone, Copy, Debug, PartialEq, Eq, Structural)]
pub enum BundlePolicy {
    /// Bundle media when possible, but fall back per track.
    Balanced,
    /// Gather per-track candidates for maximal compatibility.
    MaxCompat,
    /// Bundle everything onto one transport.
    MaxBundle,
}

impl Default for BundlePolicy {
    /// With no explicit choice, bundling is balanced.
    fn default() -> (r: Self)
        ensures
            r == BundlePolicy::Balanced,
    {
        BundlePolicy::Balanced
    }
}

/// rtcp-mux negotiation strategy used while gathering ICE candidates.
#[derive(Clone, Copy, Debug, PartialEq, Eq, Structural)]
pub enum RTCPMuxPolicy {
    /// Offer to multiplex RTP and RTCP, but accept separate transports.
    Negotiate,
    /// Require RTP and RTCP to share one transport.
    Require,
}

impl Default for RTCPMuxPolicy {
    /// With no explicit choice, multiplexing is negotiated.
    fn default() -> (r: Self)
        ensures
            r == RTCPMuxPolicy::Negotiate,
    {
        RTCPMuxPolicy::Negotiate
    }
}

/// Shape of SDP offers accepted by, and answers generated by, the
/// connection.
#[derive(Clone, Copy, Debug, PartialEq, Eq, Structural)]
pub enum SdpPolicy {
    /// Use the unified-plan SDP format.
    UnifiedPlan,
    /// Use the plan-b SDP format.
    PlanB,
    /// Offer unified plan, but fall back when the answer is plan-b.
    UnifiedPlanWithFallback,
}

impl Default for SdpPolicy {
    /// With no explicit choice, the unified-plan format is used.
    fn default() -> (r: Self)
        ensures
            r == SdpPolicy::UnifiedPlan,
    {
        SdpPolicy::UnifiedPlan
    }
}

} // verus!
