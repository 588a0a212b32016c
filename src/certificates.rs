//! Trust-on-first-use pinning of server certificates: the decision taken on a
//! connection from the peer's certificate digest and what the pin store holds.

use vstd::prelude::*;

verus! {

/// Why a server's certificate is not trusted.
#[derive(Clone, Copy, PartialEq, Eq, Debug, Structural)]
pub enum ServerCertError {
    CertNotPresent,
    CertChanged,
    StoreUnavailable,
}

/// What the pin store answered when asked for a host's digest.
pub enum PinLookup {
    Pinned(Vec<u8>),
    NotPinned,
    Unavailable,
}

pub enum PinLookupSpec {
    Pinned(Seq<u8>),
    NotPinned,
    Unavailable,
}

impl View for PinLookup {
    type V = PinLookupSpec;

    open spec fn view(&self) -> PinLookupSpec {
        match self {
            PinLookup::Pinned(d) => PinLookupSpec::Pinned(d@),
            PinLookup::NotPinned => PinLookupSpec::NotPinned,
            PinLookup::Unavailable => PinLookupSpec::Unavailable,
        }
    }
}

/// What to do with a connection.
#[derive(Clone, Copy, PartialEq, Eq, Debug, Structural)]
pub enum CertDecision {
    /// The digest matches the pinned one.
    Trusted,
    /// First contact: pin the digest, then trust it.
    PinNew,
    Rejected(ServerCertError),
}

/// The decision for a peer digest (`None`: no certificate presented) given
/// what the store holds for the host.
pub open spec fn decide_spec(peer: Option<Seq<u8>>, known: PinLookupSpec) -> CertDecision {
    match peer {
        None => CertDecision::Rejected(ServerCertError::CertNotPresent),
        Some(d) => match known {
            PinLookupSpec::Unavailable => CertDecision::Rejected(ServerCertError::StoreUnavailable),
            PinLookupSpec::NotPinned => CertDecision::PinNew,
            PinLookupSpec::Pinned(p) => if p == d {
                CertDecision::Trusted
            } else {
                CertDecision::Rejected(ServerCertError::CertChanged)
            },
        },
    }
}

/// The outcome of a check once the decision is carried out; `stored` tells
/// whether pinning a new digest succeeded.
pub open spec fn outcome_spec(d: CertDecision, stored: bool) -> Result<(), ServerCertError> {
    match d {
        CertDecision::Trusted => Ok(()),
        CertDecision::PinNew => if stored { Ok(()) } else { Err(ServerCertError::StoreUnavailable) },
        CertDecision::Rejected(e) => Err(e),
    }
}

fn bytes_equal(a: &Vec<u8>, b: &Vec<u8>) -> (r: bool)
    ensures
        r == (a@ == b@),
{
    if a.len() != b.len() {
        return false;
    }
    let mut i: usize = 0;
    while i < a.len()
        invariant
            a@.len() == b@.len(),
            i <= a@.len(),
            forall|k: int| 0 <= k < i ==> a@[k] == b@[k],
        decreases a@.len() - i,
    {
        if a[i] != b[i] {
            return false;
        }
        i = i + 1;
    }
    assert(a@ =~= b@);
    true
}

/// Decides whether to trust a peer: no certificate or an unreadable store
/// rejects, an unknown host is pinned, a known host must match its pin.
pub fn check_cert(peer_digest: Option<&Vec<u8>>, known: &PinLookup) -> (r: CertDecision)
    ensures
        r == decide_spec(
            match peer_digest {
                Some(d) => Some(d@),
                None => None,
            },
            known@,
        ),
{
    match peer_digest {
        None => CertDecision::Rejected(ServerCertError::CertNotPresent),
        Some(d) => match known {
            PinLookup::Unavailable => CertDecision::Rejected(ServerCertError::StoreUnavailable),
            PinLookup::NotPinned => CertDecision::PinNew,
            PinLookup::Pinned(p) => if bytes_equal(p, d) {
                CertDecision::Trusted
            } else {
                CertDecision::Rejected(ServerCertError::CertChanged)
            },
        },
    }
}

/// The result of a check, given whether a requested pin was stored.
pub fn cert_outcome(d: CertDecision, stored: bool) -> (r: Result<(), ServerCertError>)
    ensures
        r == outcome_spec(d, stored),
{
    match d {
        CertDecision::Trusted => Ok(()),
        CertDecision::PinNew => if stored { Ok(()) } else { Err(ServerCertError::StoreUnavailable) },
        CertDecision::Rejected(e) => Err(e),
    }
}

/// What a store that maps hosts to digests answers for `host`.
pub open spec fn lookup_in(store: Map<Seq<char>, Seq<u8>>, host: Seq<char>) -> PinLookupSpec {
    if store.contains_key(host) { PinLookupSpec::Pinned(store[host]) } else { PinLookupSpec::NotPinned }
}

/// One check against a store that answers and stores reliably: the store
/// afterwards and the result.
pub open spec fn tofu_check(store: Map<Seq<char>, Seq<u8>>, host: Seq<char>, digest: Seq<u8>)
    -> (Map<Seq<char>, Seq<u8>>, Result<(), ServerCertError>)
{
    let d = decide_spec(Some(digest), lookup_in(store, host));
    (if d == CertDecision::PinNew { store.insert(host, digest) } else { store }, outcome_spec(d, true))
}

/// Trust on first use: once a host is pinned to `d1` (or was unknown), checking
/// `d1` succeeds twice in a row, and checking another digest after a success
/// with `d1` fails with `CertChanged`.
pub proof fn tofu_pins_first_digest(store: Map<Seq<char>, Seq<u8>>, host: Seq<char>, d1: Seq<u8>, d2: Seq<u8>)
    requires
        !store.contains_key(host) || store[host] == d1,
    ensures
        tofu_check(store, host, d1).1 is Ok,
        tofu_check(tofu_check(store, host, d1).0, host, d1).1 is Ok,
        d2 != d1 ==> tofu_check(tofu_check(store, host, d1).0, host, d2).1
            == Err::<(), ServerCertError>(ServerCertError::CertChanged),
{
}

} // verus!
