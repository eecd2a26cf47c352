//! The connection-setup configuration value and its sanitizing accessor.

use crate::ice_server::{sanitized_server, ICEServer, ICEServerView};
use crate::policy::{BundlePolicy, ICETransportPolicy, RTCPMuxPolicy, SdpPolicy};
use vstd::prelude::*;
use webrtc_dtls::crypto::Certificate;

verus! {

/// Declares the DTLS certificate type so that it can stand in a field.
/// Relies on `webrtc_dtls::crypto::Certificate`. Its values are opaque here:
/// this component only stores authentication material for the DTLS handshake
/// and never reads it.
#[verifier::external_type_specification]
#[verifier::external_body]
pub struct ExCertificate(Certificate);

/// A Configuration defines how peer-to-peer communication is established or
/// re-established. A Configuration may be set up once and reused across
/// multiple connections. Configurations are treated as readonly: as long as
/// one is unmodified, it is safe for concurrent use, and its one derived
/// read, [`Configuration::get_ice_servers`], never changes it.
pub struct Configuration {
    /// Servers available to ICE, such as STUN and TURN servers.
    pub ice_servers: Vec<ICEServer>,
    /// Which candidate types the ICE agent is allowed to use.
    pub ice_transport_policy: ICETransportPolicy,
    /// Which media-bundling policy to use when gathering ICE candidates.
    pub bundle_policy: BundlePolicy,
    /// Which rtcp-mux policy to use when gathering ICE candidates.
    pub rtcp_mux_policy: RTCPMuxPolicy,
    /// Target peer identity: the connection is not established unless the
    /// remote peer authenticates with this name. Empty means no constraint.
    pub peer_identity: String,
    /// Certificates the connection uses to authenticate. A given DTLS
    /// connection uses only one of them; the choice is made during the DTLS
    /// handshake, outside this component. Empty means a default set is
    /// generated per connection.
    pub certificates: Vec<Certificate>,
    /// Size of the prefetched ICE candidate pool.
    pub ice_candidate_pool_size: u8,
    /// Shape of SDP offers accepted by and answers generated by the
    /// connection.
    pub sdp_policy: SdpPolicy,
}

/// The normalized image of a whole server list: every entry sanitized, in
/// the same order.
pub open spec fn sanitized_servers(s: Seq<ICEServerView>) -> Seq<ICEServerView> {
    s.map_values(|v: ICEServerView| sanitized_server(v))
}

/// An empty server list sanitizes to the empty list.
pub proof fn lemma_sanitized_servers_empty(s: Seq<ICEServerView>)
    requires
        s.len() == 0,
    ensures
        sanitized_servers(s) == Seq::<ICEServerView>::empty(),
{
    assert(sanitized_servers(s) =~= Seq::<ICEServerView>::empty());
}

/// Sanitizing an already-sanitized server list is a no-op: the sanitized
/// list is a fixed point.
pub proof fn lemma_sanitized_servers_idempotent(s: Seq<ICEServerView>)
    ensures
        sanitized_servers(sanitized_servers(s)) == sanitized_servers(s),
{
    assert forall|i: int| 0 <= i < s.len() implies sanitized_server(sanitized_server(s[i]))
        == sanitized_server(s[i]) by {
        crate::ice_server::lemma_sanitized_server_idempotent(s[i]);
    }
    assert(sanitized_servers(sanitized_servers(s)) =~= sanitized_servers(s));
}

/// The image of a server list under the view of each entry.
pub open spec fn servers_view(s: Seq<ICEServer>) -> Seq<ICEServerView> {
    s.map_values(|e: ICEServer| e@)
}

impl Configuration {
    /// Side-steps strict downstream URL parsing by copying the stored server
    /// list and stripping any erroneous query from `stun(s):` URLs before
    /// the copy is handed to the ICE agent. The stored list itself is read,
    /// never changed; entries not `stun`-prefixed (such as `turn(s):` URLs)
    /// pass through verbatim.
    pub fn get_ice_servers(&self) -> (r: Vec<ICEServer>)
        ensures
            r@.len() == self.ice_servers@.len(),
            forall|i: int| 0 <= i < r@.len() ==> #[trigger] r@[i]@ == sanitized_server(
                self.ice_servers@[i]@,
            ),
            servers_view(r@) == sanitized_servers(servers_view(self.ice_servers@)),
    {
        let mut out: Vec<ICEServer> = Vec::new();
        let n = self.ice_servers.len();
        let mut k: usize = 0;
        while k < n
            invariant
                n == self.ice_servers@.len(),
                k <= n,
                out@.len() == k,
                forall|i: int| 0 <= i < k ==> #[trigger] out@[i]@ == sanitized_server(
                    self.ice_servers@[i]@,
                ),
            decreases n - k,
        {
            let s = self.ice_servers[k].sanitize();
            out.push(s);
            k += 1;
        }
        proof {
            assert(servers_view(out@) =~= sanitized_servers(servers_view(self.ice_servers@)));
        }
        out
    }
}

impl Default for Configuration {
    /// The all-defaults configuration: no servers, no certificates, empty
    /// peer identity, a zero-sized candidate pool, and each policy at its
    /// own default. It is valid and means "use implementation defaults
    /// everywhere".
    fn default() -> (r: Self)
        ensures
            r.ice_servers@ == Seq::<ICEServer>::empty(),
            r.certificates@ == Seq::<Certificate>::empty(),
            r.peer_identity@ == Seq::<char>::empty(),
            r.ice_candidate_pool_size == 0,
            r.ice_transport_policy == ICETransportPolicy::All,
            r.bundle_policy == BundlePolicy::Balanced,
            r.rtcp_mux_policy == RTCPMuxPolicy::Negotiate,
            r.sdp_policy == SdpPolicy::UnifiedPlan,
    {
        Configuration {
            ice_servers: Vec::new(),
            ice_transport_policy: ICETransportPolicy::default(),
            bundle_policy: BundlePolicy::default(),
            rtcp_mux_policy: RTCPMuxPolicy::default(),
            peer_identity: String::new(),
            certificates: Vec::new(),
            ice_candidate_pool_size: 0,
            sdp_policy: SdpPolicy::default(),
        }
    }
}

} // verus!
