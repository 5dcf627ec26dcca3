use vstd::prelude::*;
use crate::segment_component::{extension_spec, SegmentComponent};
use crate::segment_id::SegmentId;

verus! {

/// Version marker of an operation applied to the index.
pub type Opstamp = u64;

/// The deletions recorded for a segment.
#[derive(Clone, Copy, PartialEq, Eq, Structural, Debug)]
pub struct DeleteMeta {
    pub num_deleted_docs: u32,
    pub opstamp: Opstamp,
}

/// What a `SegmentMeta` holds, as plain values.
pub ghost struct SegmentMetaView {
    pub id: SegmentId,
    pub max_doc: u32,
    pub deletes: Option<DeleteMeta>,
}

impl SegmentMetaView {
    /// No more documents are deleted than the segment holds.
    pub open spec fn wf(self) -> bool {
        match self.deletes {
            Some(d) => d.num_deleted_docs <= self.max_doc,
            None => true,
        }
    }

    pub open spec fn num_deleted_docs(self) -> u32 {
        match self.deletes {
            Some(d) => d.num_deleted_docs,
            None => 0,
        }
    }

    pub open spec fn delete_opstamp(self) -> Option<Opstamp> {
        match self.deletes {
            Some(d) => Some(d.opstamp),
            None => None,
        }
    }

    /// An opstamp may be recorded after this one's deletions: it is not older.
    pub open spec fn accepts_opstamp(self, opstamp: Opstamp) -> bool {
        match self.deletes {
            Some(d) => d.opstamp <= opstamp,
            None => true,
        }
    }
}

/// The path of a segment's component file: the segment id in hexadecimal, then the suffix.
pub open spec fn relative_path_spec(id: SegmentId, component: SegmentComponent) -> Seq<char> {
    id.uuid_spec() + extension_spec(component)
}

/// Descriptor of a segment: its id, its document count and its deletions.
#[derive(Clone, Copy, Debug)]
pub struct SegmentMeta {
    segment_id: SegmentId,
    max_doc: u32,
    deletes: Option<DeleteMeta>,
}

impl View for SegmentMeta {
    type V = SegmentMetaView;

    closed spec fn view(&self) -> SegmentMetaView {
        SegmentMetaView { id: self.segment_id, max_doc: self.max_doc, deletes: self.deletes }
    }
}

impl SegmentMeta {
    #[verifier::type_invariant]
    spec fn inv(self) -> bool {
        self@.wf()
    }

    /// Describes a segment of `max_doc` documents with no deletions.
    pub fn new(segment_id: SegmentId, max_doc: u32) -> (r: SegmentMeta)
        ensures
            r@ == (SegmentMetaView { id: segment_id, max_doc, deletes: None }),
            r@.wf(),
    {
        SegmentMeta { segment_id, max_doc, deletes: None }
    }

    pub fn id(&self) -> (r: SegmentId)
        ensures
            r == self@.id,
    {
        self.segment_id
    }

    pub fn max_doc(&self) -> (r: u32)
        ensures
            r == self@.max_doc,
    {
        self.max_doc
    }

    /// Number of deleted documents, zero where none are recorded.
    pub fn num_deleted_docs(&self) -> (r: u32)
        ensures
            r == self@.num_deleted_docs(),
    {
        match self.deletes {
            Some(d) => d.num_deleted_docs,
            None => 0,
        }
    }

    /// Number of documents that are not deleted.
    pub fn num_docs(&self) -> (r: u32)
        ensures
            r == self@.max_doc - self@.num_deleted_docs(),
    {
        proof {
            use_type_invariant(self);
        }
        self.max_doc - self.num_deleted_docs()
    }

    /// Opstamp of the last deletion applied, if any.
    pub fn delete_opstamp(&self) -> (r: Option<Opstamp>)
        ensures
            r == self@.delete_opstamp(),
    {
        match self.deletes {
            Some(d) => Some(d.opstamp),
            None => None,
        }
    }

    pub fn has_deletes(&self) -> (r: bool)
        ensures
            r == (self@.num_deleted_docs() > 0),
    {
        self.num_deleted_docs() > 0
    }

    /// Path of one of the segment's files.
    pub fn relative_path(&self, component: SegmentComponent) -> (r: String)
        ensures
            r@ == relative_path_spec(self@.id, component),
    {
        let s = self.segment_id.uuid_string();
        s.concat(component.extension())
    }

    /// Sets the document count of a freshly written segment.
    pub fn with_max_doc(self, max_doc: u32) -> (r: SegmentMeta)
        requires
            self@.max_doc == 0,
            self@.deletes is None,
        ensures
            r@ == (SegmentMetaView { max_doc, ..self@ }),
            r@.wf(),
    {
        SegmentMeta { segment_id: self.segment_id, max_doc, deletes: None }
    }

    /// Records a later deletion event.
    pub fn with_delete_meta(self, num_deleted_docs: u32, opstamp: Opstamp) -> (r: SegmentMeta)
        requires
            num_deleted_docs <= self@.max_doc,
            self@.accepts_opstamp(opstamp),
        ensures
            r@ == (SegmentMetaView {
                deletes: Some(DeleteMeta { num_deleted_docs, opstamp }),
                ..self@
            }),
            r@.wf(),
    {
        SegmentMeta {
            segment_id: self.segment_id,
            max_doc: self.max_doc,
            deletes: Some(DeleteMeta { num_deleted_docs, opstamp }),
        }
    }
}

} // verus!
