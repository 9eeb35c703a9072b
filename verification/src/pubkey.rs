//! Identities: the addresses by which participants and records are named.

use vstd::prelude::*;
use vstd::std_specs::cmp::PartialEqSpecImpl;

verus! {

/// A 32-byte address naming a participant, an asset or a record.
///
/// Two identities are the same exactly when their bytes are the same. The
/// identity whose bytes are all zero is the *null identity*: it stands for
/// "nobody yet" wherever a record has a slot that is filled in later.
#[derive(Clone, Copy, Debug, Eq, Hash)]
pub struct Pubkey(pub [u8; 32]);

impl View for Pubkey {
    type V = Seq<u8>;

    open spec fn view(&self) -> Seq<u8> {
        self.0@
    }
}

impl Pubkey {
    /// The null identity.
    pub open spec fn null() -> Pubkey {
        Pubkey(vstd::array::spec_array_fill_for_copy_type::<u8, 32>(0u8))
    }

    /// Whether this is the null identity.
    pub open spec fn is_null(self) -> bool {
        self == Pubkey::null()
    }

    /// An identity is determined by its bytes.
    pub proof fn lemma_determined_by_bytes(a: Pubkey, b: Pubkey)
        ensures
            a == b <==> a@ == b@,
    {
        if a@ == b@ {
            assert(a.0 =~= b.0);
        }
    }

    /// The null identity is the one whose bytes are all zero.
    pub proof fn lemma_null_is_all_zero(a: Pubkey)
        ensures
            a.is_null() <==> (forall|i: int| 0 <= i < 32 ==> a@[i] == 0u8),
    {
        broadcast use vstd::array::axiom_spec_array_fill_for_copy_type;

        let z = Pubkey::null();
        assert(forall|i: int| 0 <= i < 32 ==> z@[i] == 0u8);
        if forall|i: int| 0 <= i < 32 ==> a@[i] == 0u8 {
            assert(a@ =~= z@);
            Pubkey::lemma_determined_by_bytes(a, z);
        }
    }

    /// The identity with the given bytes.
    pub fn new_from_array(bytes: [u8; 32]) -> (key: Pubkey)
        ensures
            key == Pubkey(bytes),
    {
        Pubkey(bytes)
    }

    /// The bytes of this identity.
    pub fn to_bytes(&self) -> (bytes: [u8; 32])
        ensures
            bytes == self.0,
    {
        self.0
    }
}

impl Default for Pubkey {
    /// The null identity.
    fn default() -> (key: Pubkey)
        ensures
            key == Pubkey::null(),
    {
        Pubkey([0u8; 32])
    }
}

impl PartialEq for Pubkey {
    fn eq(&self, other: &Pubkey) -> (same: bool) {
        let mut i: usize = 0;
        while i < 32
            invariant
                0 <= i <= 32,
                forall|j: int| 0 <= j < i ==> self.0[j] == other.0[j],
            decreases 32 - i,
        {
            if self.0[i] != other.0[i] {
                return false;
            }
            i += 1;
        }
        proof {
            assert(self.0 =~= other.0);
        }
        true
    }
}

impl PartialEqSpecImpl for Pubkey {
    open spec fn obeys_eq_spec() -> bool {
        true
    }

    open spec fn eq_spec(&self, other: &Pubkey) -> bool {
        *self == *other
    }
}

} // verus!
