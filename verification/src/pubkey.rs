use vstd::prelude::*;

verus! {

broadcast use vstd::array::group_array_axioms;

/// A 32-byte account address.
#[derive(Clone, Copy, Debug)]
pub struct Pubkey(pub [u8; 32]);

impl View for Pubkey {
    type V = Seq<u8>;

    open spec fn view(&self) -> Seq<u8> {
        self.0@
    }
}

/// The bytes of the default (all-zero) address.
pub open spec fn zero_key() -> Seq<u8> {
    Seq::new(32, |i: int| 0u8)
}

/// The default (all-zero) address.
pub open spec fn default_key() -> Pubkey {
    Pubkey(vstd::array::spec_array_fill_for_copy_type::<u8, 32>(0u8))
}

impl Pubkey {
    /// Whether this is the default (all-zero) address.
    pub open spec fn is_default(self) -> bool {
        self@ == zero_key()
    }

    /// The address as a byte vector, as it is used in a seed.
    pub fn to_vec(&self) -> (r: Vec<u8>)
        ensures
            r@ == self@,
    {
        vstd::slice::slice_to_vec(self.0.as_slice())
    }

    /// Two addresses with the same bytes are the same address.
    pub proof fn lemma_view_injective(a: Pubkey, b: Pubkey)
        requires
            a@ == b@,
        ensures
            a == b,
    {
        assert(a.0 =~= b.0);
    }
}

impl Default for Pubkey {
    fn default() -> (r: Self)
        ensures
            r == default_key(),
            r@ == zero_key(),
    {
        let r = Pubkey([0u8; 32]);
        assert(r@ =~= zero_key());
        r
    }
}

impl PartialEq for Pubkey {
    fn eq(&self, other: &Self) -> (r: bool) {
        let mut i: usize = 0;
        while i < 32
            invariant
                0 <= i <= 32,
                forall|j: int| 0 <= j < i ==> self@[j] == other@[j],
            decreases 32 - i,
        {
            if self.0[i] != other.0[i] {
                return false;
            }
            i = i + 1;
        }
        assert(self@ =~= other@);
        true
    }
}

impl vstd::std_specs::cmp::PartialEqSpecImpl for Pubkey {
    open spec fn obeys_eq_spec() -> bool {
        true
    }

    open spec fn eq_spec(&self, other: &Pubkey) -> bool {
        self@ == other@
    }
}

impl Eq for Pubkey {

}

} // verus!
