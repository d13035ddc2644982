use vstd::prelude::*;
use vstd::std_specs::cmp::PartialEqSpecImpl;

verus! {

/// A 32-byte identity: a caller, an artifact, or the address of a record.
#[derive(Clone, Copy, Debug)]
pub struct Identity {
    pub bytes: [u8; 32],
}

impl View for Identity {
    type V = Seq<u8>;

    open spec fn view(&self) -> Seq<u8> {
        self.bytes@
    }
}

/// The view of the null identity: thirty-two zero bytes.
pub open spec fn null_bytes() -> Seq<u8> {
    Seq::new(32, |i: int| 0u8)
}

/// The null identity as a value.
pub open spec fn null_identity() -> Identity {
    Identity { bytes: vstd::array::spec_array_fill_for_copy_type::<u8, 32>(0u8) }
}

impl Identity {
    /// Wraps raw address bytes.
    pub fn new(bytes: [u8; 32]) -> (r: Identity)
        ensures
            r.bytes == bytes,
            r@ == bytes@,
    {
        Identity { bytes }
    }

    /// The null identity, which stands for "none".
    pub fn null() -> (r: Identity)
        ensures
            r == null_identity(),
            r@ == null_bytes(),
            r.is_null_spec(),
    {
        let r = Identity { bytes: [0u8; 32] };
        assert(r@ =~= null_bytes());
        r
    }

    pub open spec fn is_null_spec(&self) -> bool {
        self@ == null_bytes()
    }

    /// Whether this is the null identity.
    pub fn is_null(&self) -> (r: bool)
        ensures
            r == self.is_null_spec(),
    {
        let mut i: usize = 0;
        while i < 32
            invariant
                i <= 32,
                forall|j: int| 0 <= j < i ==> self.bytes@[j] == 0u8,
            decreases 32 - i,
        {
            if self.bytes[i] != 0 {
                assert(null_bytes()[i as int] == 0u8);
                return false;
            }
            i += 1;
        }
        assert(self@ =~= null_bytes());
        true
    }

    /// The null identity is null, and it is the only identity that is.
    pub proof fn lemma_null_identity(a: Identity)
        ensures
            null_identity().is_null_spec(),
            a.is_null_spec() <==> a == null_identity(),
    {
        assert(null_identity()@ =~= null_bytes());
        Self::lemma_view_injective(a, null_identity());
    }

    /// Two identities with the same bytes are the same identity.
    pub proof fn lemma_view_injective(a: Identity, b: Identity)
        ensures
            (a@ == b@) <==> (a == b),
    {
        if a@ == b@ {
            assert(a.bytes@ =~= b.bytes@);
            assert(a.bytes == b.bytes);
        }
    }
}

impl PartialEq for Identity {
    fn eq(&self, other: &Identity) -> (r: bool) {
        let r = bytes_equal(&self.bytes, &other.bytes);
        r
    }
}

impl PartialEqSpecImpl for Identity {
    open spec fn obeys_eq_spec() -> bool {
        true
    }

    open spec fn eq_spec(&self, other: &Identity) -> bool {
        self@ == other@
    }
}

/// Compares two 32-byte arrays byte by byte.
pub fn bytes_equal(a: &[u8; 32], b: &[u8; 32]) -> (r: bool)
    ensures
        r == (a@ == b@),
{
    let mut i: usize = 0;
    while i < 32
        invariant
            i <= 32,
            forall|j: int| 0 <= j < i ==> a@[j] == b@[j],
        decreases 32 - i,
    {
        if a[i] != b[i] {
            return false;
        }
        i += 1;
    }
    assert(a@ =~= b@);
    true
}

} // verus!
