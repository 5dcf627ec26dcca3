use vstd::prelude::*;

verus! {

/// Number of set bits.
pub open spec fn num_set(s: Seq<bool>) -> nat
    decreases s.len(),
{
    if s.len() == 0 {
        0
    } else {
        num_set(s.drop_last()) + if s.last() {
            1nat
        } else {
            0nat
        }
    }
}

proof fn lemma_num_set_bound(s: Seq<bool>)
    ensures
        num_set(s) <= s.len(),
    decreases s.len(),
{
    if s.len() > 0 {
        lemma_num_set_bound(s.drop_last());
    }
}

/// One bit per document ordinal in `[0, max_value)`.
#[derive(Debug)]
pub struct BitSet {
    bits: Vec<bool>,
    max_value: u32,
}

impl View for BitSet {
    type V = Seq<bool>;

    closed spec fn view(&self) -> Seq<bool> {
        self.bits@
    }
}

impl BitSet {
    #[verifier::type_invariant]
    spec fn inv(self) -> bool {
        self.bits@.len() == self.max_value
    }

    /// An empty set over the ordinals `[0, max_value)`.
    pub fn with_max_value(max_value: u32) -> (r: BitSet)
        ensures
            r@ == Seq::new(max_value as nat, |i: int| false),
    {
        let mut bits: Vec<bool> = Vec::new();
        let mut i: u32 = 0;
        while i < max_value
            invariant
                i <= max_value,
                bits@ == Seq::new(i as nat, |k: int| false),
            decreases max_value - i,
        {
            bits.push(false);
            i = i + 1;
            assert(bits@ =~= Seq::new(i as nat, |k: int| false));
        }
        BitSet { bits, max_value }
    }

    /// Number of ordinals covered.
    pub fn max_value(&self) -> (r: u32)
        ensures
            r == self@.len(),
    {
        proof {
            use_type_invariant(self);
        }
        self.max_value
    }

    /// Whether `doc` is in the set; an ordinal out of range is not.
    pub fn contains(&self, doc: u32) -> (r: bool)
        ensures
            r == (doc < self@.len() && self@[doc as int]),
    {
        proof {
            use_type_invariant(self);
        }
        doc < self.max_value && self.bits[doc as usize]
    }

    /// Adds `doc` to the set; an ordinal out of range is refused and the set left as it was.
    pub fn insert(&mut self, doc: u32) -> (accepted: bool)
        ensures
            accepted == (doc < old(self)@.len()),
            accepted ==> final(self)@ == old(self)@.update(doc as int, true),
            !accepted ==> final(self)@ == old(self)@,
    {
        proof {
            use_type_invariant(&*self);
        }
        if doc >= self.max_value {
            return false;
        }
        let mut taken = BitSet { bits: Vec::new(), max_value: 0 };
        core::mem::swap(self, &mut taken);
        let BitSet { mut bits, max_value } = taken;
        bits.set(doc as usize, true);
        *self = BitSet { bits, max_value };
        true
    }

    /// Number of ordinals in the set.
    pub fn len(&self) -> (r: u32)
        ensures
            r == num_set(self@),
    {
        proof {
            use_type_invariant(self);
        }
        let mut count: u32 = 0;
        let mut i: usize = 0;
        while i < self.bits.len()
            invariant
                i <= self.bits@.len(),
                self.bits@.len() == self.max_value,
                count == num_set(self.bits@.subrange(0, i as int)),
            decreases self.bits@.len() - i,
        {
            proof {
                assert(self.bits@.subrange(0, i + 1).drop_last() =~= self.bits@.subrange(0, i as int));
                lemma_num_set_bound(self.bits@.subrange(0, i as int));
            }
            if self.bits[i] {
                count = count + 1;
            }
            i = i + 1;
        }
        assert(self.bits@.subrange(0, i as int) =~= self.bits@);
        count
    }
}

} // verus!
