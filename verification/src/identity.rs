//! Peers, and the identity under which a network is known.
use vstd::prelude::*;

verus! {

/// The number of a peer.
pub type PeerId = u32;

/// The number under which the peer map of a network is kept.
pub type PeerMapId = u64;

/// The digest of a network's name and secret.
pub type NetworkSecretDigest = [u8; 32];

/// What a peer shows of the network that it belongs to.
#[derive(Debug)]
pub struct NetworkIdentity {
    pub network_name: String,
    pub network_secret_digest: Option<NetworkSecretDigest>,
}

/// The model of a [`NetworkIdentity`].
#[verifier::ext_equal]
pub struct IdentityView {
    pub network_name: Seq<char>,
    pub network_secret_digest: Option<Seq<u8>>,
}

impl View for NetworkIdentity {
    type V = IdentityView;

    open spec fn view(&self) -> IdentityView {
        IdentityView {
            network_name: self.network_name@,
            network_secret_digest: match self.network_secret_digest {
                Some(digest) => Some(digest@),
                None => None,
            },
        }
    }
}

impl IdentityView {
    /// The digest, or one of 32 zero bytes where there is none.
    pub open spec fn digest_or_zero(self) -> Seq<u8> {
        match self.network_secret_digest {
            Some(digest) => digest,
            None => Seq::new(32, |i: int| 0u8),
        }
    }
}

impl Clone for NetworkIdentity {
    fn clone(&self) -> (copy: Self)
        ensures
            copy@ == self@,
    {
        NetworkIdentity {
            network_name: self.network_name.clone(),
            network_secret_digest: self.network_secret_digest,
        }
    }
}

/// Two identities are equal when their names and their digests are.
impl PartialEq for NetworkIdentity {
    fn eq(&self, other: &NetworkIdentity) -> (same: bool) {
        let digests_agree = match (&self.network_secret_digest, &other.network_secret_digest) {
            (Some(mine), Some(theirs)) => digest_eq(mine, theirs),
            (None, None) => true,
            _ => false,
        };
        self.network_name == other.network_name && digests_agree
    }
}

impl vstd::std_specs::cmp::PartialEqSpecImpl for NetworkIdentity {
    open spec fn obeys_eq_spec() -> bool {
        true
    }

    open spec fn eq_spec(&self, other: &NetworkIdentity) -> bool {
        self@ == other@
    }
}

impl NetworkIdentity {
    /// The digest, or one of 32 zero bytes where there is none.
    pub fn digest_or_default(&self) -> (digest: NetworkSecretDigest)
        ensures
            digest@ == self@.digest_or_zero(),
    {
        match self.network_secret_digest {
            Some(digest) => digest,
            None => [0u8; 32],
        }
    }
}

/// Whether two digests hold the same bytes.
pub fn digest_eq(a: &NetworkSecretDigest, b: &NetworkSecretDigest) -> (same: bool)
    ensures
        same == (a@ == b@),
{
    let mut i: usize = 0;
    while i < 32
        invariant
            i <= 32,
            forall|j: int| 0 <= j < i ==> a@[j] == b@[j],
        decreases 32 - i,
    {
        if a[i] != b[i] {
            assert(a@[i as int] != b@[i as int]);
            return false;
        }
        i += 1;
    }
    assert(a@ =~= b@);
    true
}

} // verus!
