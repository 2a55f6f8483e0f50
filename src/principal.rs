use vstd::prelude::*;

verus! {

/// An identity that can authenticate an action: an administrator, a player,
/// or the address of a collaborating service. It is held as the canonical
/// byte encoding of the identity, so two principals are the same exactly
/// when their encodings are.
#[derive(Clone, Debug)]
pub struct Principal {
    pub key: Vec<u8>,
}

impl View for Principal {
    type V = Seq<u8>;

    open spec fn view(&self) -> Seq<u8> {
        self.key@
    }
}

impl Principal {
    pub fn new(key: Vec<u8>) -> (r: Principal)
        ensures
            r@ == key@,
    {
        Principal { key }
    }

    /// A copy that encodes the same identity.
    pub fn duplicate(&self) -> (r: Principal)
        ensures
            r@ == self@,
    {
        let mut key: Vec<u8> = Vec::new();
        let mut i: usize = 0;
        while i < self.key.len()
            invariant
                i <= self.key@.len(),
                key@ == self.key@.subrange(0, i as int),
            decreases self.key@.len() - i,
        {
            key.push(self.key[i]);
            i = i + 1;
        }
        assert(key@ == self.key@);
        Principal { key }
    }

    /// Whether both principals encode the same identity.
    pub fn same_as(&self, other: &Principal) -> (r: bool)
        ensures
            r == (self@ == other@),
    {
        if self.key.len() != other.key.len() {
            return false;
        }
        let mut i: usize = 0;
        while i < self.key.len()
            invariant
                i <= self.key@.len(),
                self.key@.len() == other.key@.len(),
                self.key@.subrange(0, i as int) == other.key@.subrange(0, i as int),
            decreases self.key@.len() - i,
        {
            if self.key[i] != other.key[i] {
                assert(self.key@.subrange(0, i as int + 1)[i as int]
                    != other.key@.subrange(0, i as int + 1)[i as int]);
                assert(self@ != other@);
                return false;
            }
            assert(self.key@.subrange(0, i as int + 1) =~= self.key@.subrange(0, i as int).push(self.key@[i as int]));
            assert(other.key@.subrange(0, i as int + 1) =~= other.key@.subrange(0, i as int).push(other.key@[i as int]));
            i = i + 1;
        }
        assert(self.key@ =~= self.key@.subrange(0, i as int));
        assert(other.key@ =~= other.key@.subrange(0, i as int));
        true
    }
}

impl PartialEq for Principal {
    fn eq(&self, other: &Principal) -> (r: bool) {
        self.same_as(other)
    }
}

impl vstd::std_specs::cmp::PartialEqSpecImpl for Principal {
    open spec fn obeys_eq_spec() -> bool {
        true
    }

    open spec fn eq_spec(&self, other: &Principal) -> bool {
        self@ == other@
    }
}

impl Eq for Principal {
}

} // verus!
