use vstd::prelude::*;
use crate::directory::OpenWriteError;
use crate::segment::Segment;
use crate::segment_component::SegmentComponent;

verus! {

/// Writes the component files of one segment.
pub struct SegmentSerializer {
    segment: Segment,
}

impl SegmentSerializer {
    pub closed spec fn segment_spec(&self) -> Segment {
        self.segment
    }

    /// A serializer that writes into the files of `segment`.
    pub fn for_segment(segment: Segment) -> (r: SegmentSerializer)
        ensures
            r.segment_spec() == segment,
    {
        SegmentSerializer { segment }
    }

    /// Writes `bytes` as the whole content of a component that has no file yet.
    pub fn write_component(&mut self, component: SegmentComponent, bytes: &[u8]) -> (r: Result<
        (),
        OpenWriteError,
    >)
        ensures
            r is Ok == old(self).segment_spec().read_spec(component) is None,
            final(self).segment_spec().meta_spec() == old(self).segment_spec().meta_spec(),
            final(self).segment_spec().schema_spec() == old(self).segment_spec().schema_spec(),
            r is Ok ==> final(self).segment_spec().files() == old(self).segment_spec().files().insert(
                old(self).segment_spec().path_of(component),
                bytes@,
            ),
            r is Err ==> final(self).segment_spec().files() == old(self).segment_spec().files(),
    {
        let mut w = self.segment.open_write(component)?;
        w.write_all(bytes);
        self.segment.close_write(w);
        Ok(())
    }

    /// Gives back the segment with the files written so far.
    pub fn into_segment(self) -> (r: Segment)
        ensures
            r == self.segment_spec(),
    {
        self.segment
    }
}

/// Something that can be written out as the files of a segment.
pub trait SerializableSegment {
    /// Writes a view of a segment through `serializer`, and returns the number of documents
    /// written.
    fn write(&self, serializer: &mut SegmentSerializer) -> Result<u32, OpenWriteError>;
}

} // verus!
