use vstd::prelude::*;

verus! {

/// The kinds of file that a segment may have.
#[derive(Clone, Copy, PartialEq, Eq, Structural, Debug, Hash)]
pub enum SegmentComponent {
    Postings,
    Positions,
    PositionsSkip,
    FastFields,
    FieldNorms,
    Terms,
    Store,
    Delete,
}

/// The path suffix of each component, dot included.
pub open spec fn extension_spec(c: SegmentComponent) -> Seq<char> {
    match c {
        SegmentComponent::Postings => ".idx"@,
        SegmentComponent::Positions => ".pos"@,
        SegmentComponent::PositionsSkip => ".posidx"@,
        SegmentComponent::FastFields => ".fast"@,
        SegmentComponent::FieldNorms => ".fieldnorm"@,
        SegmentComponent::Terms => ".term"@,
        SegmentComponent::Store => ".store"@,
        SegmentComponent::Delete => ".del"@,
    }
}

impl SegmentComponent {
    /// Returns the path suffix of this component, dot included.
    pub fn extension(&self) -> (r: &'static str)
        ensures
            r@ == extension_spec(*self),
    {
        match self {
            SegmentComponent::Postings => ".idx",
            SegmentComponent::Positions => ".pos",
            SegmentComponent::PositionsSkip => ".posidx",
            SegmentComponent::FastFields => ".fast",
            SegmentComponent::FieldNorms => ".fieldnorm",
            SegmentComponent::Terms => ".term",
            SegmentComponent::Store => ".store",
            SegmentComponent::Delete => ".del",
        }
    }

    /// Lists every component.
    pub fn iterator() -> (r: Vec<SegmentComponent>)
        ensures
            r@.len() == 8,
            forall|c: SegmentComponent| #[trigger] r@.contains(c),
    {
        let r = vec![
            SegmentComponent::Postings,
            SegmentComponent::Positions,
            SegmentComponent::PositionsSkip,
            SegmentComponent::FastFields,
            SegmentComponent::FieldNorms,
            SegmentComponent::Terms,
            SegmentComponent::Store,
            SegmentComponent::Delete,
        ];
        assert forall|c: SegmentComponent| #[trigger] r@.contains(c) by {
            match c {
                SegmentComponent::Postings => assert(r@[0] == c),
                SegmentComponent::Positions => assert(r@[1] == c),
                SegmentComponent::PositionsSkip => assert(r@[2] == c),
                SegmentComponent::FastFields => assert(r@[3] == c),
                SegmentComponent::FieldNorms => assert(r@[4] == c),
                SegmentComponent::Terms => assert(r@[5] == c),
                SegmentComponent::Store => assert(r@[6] == c),
                SegmentComponent::Delete => assert(r@[7] == c),
            }
        }
        r
    }
}

} // verus!
