use vstd::prelude::*;

verus! {

/// A position in the append-only log of delete operations. It never moves backward.
#[derive(Debug)]
pub struct DeleteCursor {
    position: u64,
}

impl View for DeleteCursor {
    type V = nat;

    closed spec fn view(&self) -> nat {
        self.position as nat
    }
}

impl DeleteCursor {
    /// A cursor standing at `position`.
    pub fn new(position: u64) -> (r: DeleteCursor)
        ensures
            r@ == position,
    {
        DeleteCursor { position }
    }

    /// Index of the next operation to apply.
    pub fn position(&self) -> (r: u64)
        ensures
            r == self@,
    {
        self.position
    }

    /// Moves past one operation.
    pub fn advance(&mut self)
        requires
            old(self)@ < u64::MAX,
        ensures
            final(self)@ == old(self)@ + 1,
            final(self)@ >= old(self)@,
    {
        self.position = self.position + 1;
    }

    /// Moves to `target` if it lies ahead; a target behind the cursor leaves it where it is.
    pub fn skip_to(&mut self, target: u64)
        ensures
            final(self)@ == if target > old(self)@ {
                target as nat
            } else {
                old(self)@
            },
            final(self)@ >= old(self)@,
    {
        if target > self.position {
            self.position = target;
        }
    }
}

} // verus!
