//! Identities: fixed-size opaque identifiers that are only ever compared.

use vstd::prelude::*;
use vstd::std_specs::cmp::PartialEqSpecImpl;

verus! {

/// A 32-byte identifier of a user, an authority, a token or a record.
///
/// The all-zero identity is the sentinel: it marks a record that nobody has
/// written yet.
#[derive(Clone, Copy, Debug, Eq, Hash)]
pub struct Identity {
    pub bytes: [u8; 32],
}

impl View for Identity {
    type V = Seq<u8>;

    open spec fn view(&self) -> Seq<u8> {
        self.bytes@
    }
}

/// The view of the sentinel: thirty-two zero bytes.
pub open spec fn sentinel_bytes() -> Seq<u8> {
    Seq::new(32, |i: int| 0u8)
}

/// Compares two identities byte by byte.
pub fn same_identity(a: &Identity, b: &Identity) -> (r: bool)
    ensures
        r == (a@ == b@),
        r == (*a == *b),
{
    let mut i: usize = 0;
    while i < 32
        invariant
            i <= 32,
            forall|j: int| 0 <= j < i ==> a.bytes[j] == b.bytes[j],
        decreases 32 - i,
    {
        if a.bytes[i] != b.bytes[i] {
            return false;
        }
        i += 1;
    }
    proof {
        vstd::array::axiom_array_ext_equal(a.bytes, b.bytes);
    }
    true
}

impl PartialEq for Identity {
    fn eq(&self, other: &Self) -> (r: bool) {
        same_identity(self, other)
    }
}

impl PartialEqSpecImpl for Identity {
    open spec fn obeys_eq_spec() -> bool {
        true
    }

    open spec fn eq_spec(&self, other: &Self) -> bool {
        *self == *other
    }
}

impl Default for Identity {
    /// The sentinel identity.
    fn default() -> (r: Identity)
        ensures
            r.is_sentinel(),
    {
        let r = Identity { bytes: [0u8; 32] };
        assert(r@ =~= sentinel_bytes());
        r
    }
}

impl Identity {
    /// Whether this is the all-zero identity.
    pub open spec fn is_sentinel(&self) -> bool {
        self@ == sentinel_bytes()
    }

    /// The identity made of `bytes`.
    pub fn new(bytes: [u8; 32]) -> (r: Identity)
        ensures
            r.bytes == bytes,
            r@ == bytes@,
    {
        Identity { bytes }
    }

    /// The bytes of this identity.
    pub fn to_bytes(&self) -> (r: [u8; 32])
        ensures
            r == self.bytes,
    {
        self.bytes
    }

    /// Tests for the sentinel.
    pub fn is_default(&self) -> (r: bool)
        ensures
            r == self.is_sentinel(),
    {
        let zero = Identity::default();
        proof {
            lemma_identity_by_view(*self, zero);
        }
        *self == zero
    }
}

/// Two identities are the same exactly when their bytes are the same.
pub proof fn lemma_identity_by_view(a: Identity, b: Identity)
    ensures
        (a == b) <==> (a@ == b@),
{
    if a@ == b@ {
        vstd::array::axiom_array_ext_equal(a.bytes, b.bytes);
    }
}

} // verus!
