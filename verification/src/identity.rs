//! The network identity of a caller.

use crate::lru_table::IdentityKey;
use vstd::prelude::*;

verus! {

/// The address a request came from. It serves as a lookup key and nothing else.
#[derive(Clone, Copy, Debug, PartialEq, Eq, Structural)]
pub enum ClientIdentity {
    /// An IPv4 address, as its 32 bits.
    V4(u32),
    /// An IPv6 address, as its 128 bits.
    V6(u128),
}

impl View for ClientIdentity {
    type V = IdentityKey;

    /// The key under which the identity is counted.
    open spec fn view(&self) -> IdentityKey {
        match *self {
            ClientIdentity::V4(bits) => (false, bits as u128),
            ClientIdentity::V6(bits) => (true, bits),
        }
    }
}

impl ClientIdentity {
    /// The key under which the identity is counted.
    pub fn key(&self) -> (key: IdentityKey)
        ensures
            key == self@,
    {
        match *self {
            ClientIdentity::V4(bits) => (false, bits as u128),
            ClientIdentity::V6(bits) => (true, bits),
        }
    }

    /// Different identities are counted under different keys.
    pub proof fn lemma_key_injective(a: ClientIdentity, b: ClientIdentity)
        requires
            a@ == b@,
        ensures
            a == b,
    {
    }
}

} // verus!
