//! A single ICE server entry: raw STUN/TURN URLs with optional credentials.

use crate::sanitize::{sanitize_url, sanitized};
use vstd::prelude::*;

verus! {

/// Describes one server available to ICE, such as a STUN or TURN server:
/// one or more raw URLs together with optional credentials.
#[derive(Clone, Debug, PartialEq, Eq)]
pub struct ICEServer {
    /// Raw server URLs; a URL may still carry a query component here.
    pub urls: Vec<String>,
    /// Username presented to the server; empty means none.
    pub username: String,
    /// Credential presented to the server; empty means none.
    pub credential: String,
}

/// Mathematical image of an [`ICEServer`]: its URLs and credentials as
/// character sequences.
#[verifier::ext_equal]
pub ghost struct ICEServerView {
    pub urls: Seq<Seq<char>>,
    pub username: Seq<char>,
    pub credential: Seq<char>,
}

impl View for ICEServer {
    type V = ICEServerView;

    open spec fn view(&self) -> ICEServerView {
        ICEServerView {
            urls: self.urls@.map_values(|u: String| u@),
            username: self.username@,
            credential: self.credential@,
        }
    }
}

/// The normalized image of a server entry: every URL sanitized, credentials
/// kept as they are.
pub open spec fn sanitized_server(v: ICEServerView) -> ICEServerView {
    ICEServerView {
        urls: v.urls.map_values(|u: Seq<char>| sanitized(u)),
        username: v.username,
        credential: v.credential,
    }
}

/// Sanitizing a server entry is idempotent: a sanitized entry is a fixed
/// point.
pub proof fn lemma_sanitized_server_idempotent(v: ICEServerView)
    ensures
        sanitized_server(sanitized_server(v)) == sanitized_server(v),
{
    assert forall|j: int| 0 <= j < v.urls.len() implies crate::sanitize::sanitized(
        crate::sanitize::sanitized(v.urls[j]),
    ) == crate::sanitize::sanitized(v.urls[j]) by {
        crate::sanitize::lemma_sanitized_idempotent(v.urls[j]);
    }
    assert(sanitized_server(sanitized_server(v)).urls =~= sanitized_server(v).urls);
    assert(sanitized_server(sanitized_server(v)) =~= sanitized_server(v));
}

impl ICEServer {
    /// An independent copy of this entry in which every `stun`-prefixed URL
    /// has its query stripped; `self` is read, never changed.
    pub fn sanitize(&self) -> (r: ICEServer)
        ensures
            r@ == sanitized_server(self@),
    {
        let mut urls: Vec<String> = Vec::new();
        let n = self.urls.len();
        let mut k: usize = 0;
        while k < n
            invariant
                n == self.urls@.len(),
                k <= n,
                urls@.len() == k,
                forall|j: int| 0 <= j < k ==> urls@[j]@ == sanitized(self.urls@[j]@),
            decreases n - k,
        {
            let u = sanitize_url(self.urls[k].as_str());
            urls.push(u);
            k += 1;
        }
        let r = ICEServer {
            urls,
            username: self.username.clone(),
            credential: self.credential.clone(),
        };
        proof {
            assert(r@.urls =~= sanitized_server(self@).urls);
            assert(r@ =~= sanitized_server(self@));
        }
        r
    }
}

impl Default for ICEServer {
    /// The empty entry: no URLs and empty credentials.
    fn default() -> (r: Self)
        ensures
            r.urls@ == Seq::<String>::empty(),
            r.username@ == Seq::<char>::empty(),
            r.credential@ == Seq::<char>::empty(),
    {
        ICEServer { urls: Vec::new(), username: String::new(), credential: String::new() }
    }
}

} // verus!
