use vstd::prelude::*;
use crate::bitset::BitSet;
use crate::delete_cursor::DeleteCursor;
use crate::directory::Directory;
use crate::segment::SegmentDirectory;
use crate::segment_id::SegmentId;
use crate::segment_meta::{SegmentMeta, SegmentMetaView};

verus! {

/// Failure to make a segment's files durable.
#[derive(Debug, PartialEq, Eq, Structural)]
pub enum PersistError {
    /// The files already live in a durable store; they move there at most once.
    AlreadyPersisted,
}

/// A pending-deletion bitset fits a descriptor when it has one bit per document.
pub open spec fn bitset_fits(bitset: Option<Seq<bool>>, meta: SegmentMetaView) -> bool {
    match bitset {
        Some(b) => b.len() == meta.max_doc,
        None => true,
    }
}

/// The state of a segment at a given instant, as the writer tracks it.
///
/// Besides the descriptor it holds the deletions of the current commit that are not yet in a
/// delete file, and the position in the delete log up to which deletions have been applied.
pub struct SegmentEntry {
    meta: SegmentMeta,
    delete_bitset: Option<BitSet>,
    delete_cursor: DeleteCursor,
    directory: SegmentDirectory,
}

impl SegmentEntry {
    /// The pending-deletion bitset, when present, has one bit per document.
    pub open spec fn wf(&self) -> bool {
        bitset_fits(self.bitset_spec(), self.meta_spec())
    }

    pub closed spec fn meta_spec(&self) -> SegmentMetaView {
        self.meta@
    }

    pub closed spec fn bitset_spec(&self) -> Option<Seq<bool>> {
        match self.delete_bitset {
            Some(b) => Some(b@),
            None => None,
        }
    }

    pub closed spec fn cursor_spec(&self) -> nat {
        self.delete_cursor@
    }

    pub closed spec fn directory_spec(&self) -> SegmentDirectory {
        self.directory
    }

    /// Creates a new entry.
    pub fn new(
        segment_meta: SegmentMeta,
        delete_cursor: DeleteCursor,
        delete_bitset: Option<BitSet>,
        directory: SegmentDirectory,
    ) -> (r: SegmentEntry)
        requires
            match delete_bitset {
                Some(b) => b@.len() == segment_meta@.max_doc,
                None => true,
            },
        ensures
            r.meta_spec() == segment_meta@,
            r.cursor_spec() == delete_cursor@,
            r.bitset_spec() == match delete_bitset {
                Some(b) => Some(b@),
                None => None::<Seq<bool>>,
            },
            r.directory_spec() == directory,
            r.wf(),
    {
        SegmentEntry { meta: segment_meta, delete_bitset, delete_cursor, directory }
    }

    /// Makes the segment's files durable: each file of the in-memory store is copied into
    /// `directory`, and only then does the entry switch to it. On failure nothing changes.
    pub fn persist(&mut self, directory: Directory) -> (r: Result<(), PersistError>)
        ensures
            r is Ok == old(self).directory_spec() is Volatile,
            r is Ok ==> final(self).directory_spec() is Persisted && final(self).directory_spec().files()
                == directory@.union_prefer_right(old(self).directory_spec().files()),
            r is Err ==> r == Err::<(), PersistError>(PersistError::AlreadyPersisted)
                && final(self).directory_spec() == old(self).directory_spec(),
            final(self).meta_spec() == old(self).meta_spec(),
            final(self).bitset_spec() == old(self).bitset_spec(),
            final(self).cursor_spec() == old(self).cursor_spec(),
            old(self).wf() ==> final(self).wf(),
    {
        let mut destination = directory;
        match &self.directory {
            SegmentDirectory::Volatile(volatile) => {
                destination.copy_files_from(volatile);
            },
            SegmentDirectory::Persisted(_) => {
                return Err(PersistError::AlreadyPersisted);
            },
        }
        self.directory = SegmentDirectory::Persisted(destination);
        Ok(())
    }

    /// Returns the bitset of documents deleted during the current commit, if any.
    pub fn delete_bitset(&self) -> (r: Option<&BitSet>)
        ensures
            match r {
                Some(b) => self.bitset_spec() == Some(b@),
                None => self.bitset_spec() is None,
            },
    {
        match &self.delete_bitset {
            Some(b) => Some(b),
            None => None,
        }
    }

    /// Replaces the descriptor; the caller hands a complete, valid one.
    pub fn set_meta(&mut self, segment_meta: SegmentMeta)
        requires
            bitset_fits(old(self).bitset_spec(), segment_meta@),
        ensures
            final(self).meta_spec() == segment_meta@,
            final(self).bitset_spec() == old(self).bitset_spec(),
            final(self).cursor_spec() == old(self).cursor_spec(),
            final(self).directory_spec() == old(self).directory_spec(),
            final(self).wf(),
    {
        self.meta = segment_meta;
    }

    /// Returns the entry's position in the delete log, to be moved on.
    pub fn delete_cursor(&mut self) -> (r: &mut DeleteCursor)
        ensures
            r@ == old(self).cursor_spec(),
            final(self).cursor_spec() == final(r)@,
            final(self).meta_spec() == old(self).meta_spec(),
            final(self).bitset_spec() == old(self).bitset_spec(),
            final(self).directory_spec() == old(self).directory_spec(),
            old(self).wf() ==> final(self).wf(),
    {
        &mut self.delete_cursor
    }

    /// Returns the segment's id.
    pub fn segment_id(&self) -> (r: SegmentId)
        ensures
            r == self.meta_spec().id,
    {
        self.meta.id()
    }

    /// Returns the store that the segment's files are read from.
    pub fn directory(&self) -> (r: &SegmentDirectory)
        ensures
            *r == self.directory_spec(),
    {
        &self.directory
    }

    /// Returns the descriptor.
    pub fn meta(&self) -> (r: &SegmentMeta)
        ensures
            r@ == self.meta_spec(),
    {
        &self.meta
    }
}

/// Persisting is all or nothing for a reader: after a failed attempt every file reads as
/// before, and after a successful one every file of the in-memory store reads the same bytes
/// from the durable store.
pub proof fn lemma_persist_keeps_reads(
    before: SegmentEntry,
    after: SegmentEntry,
    destination: Map<Seq<char>, Seq<u8>>,
    succeeded: bool,
    path: Seq<char>,
)
    requires
        succeeded ==> after.directory_spec().files() == destination.union_prefer_right(
            before.directory_spec().files(),
        ),
        !succeeded ==> after.directory_spec() == before.directory_spec(),
        before.directory_spec().files().contains_key(path),
    ensures
        after.directory_spec().files().contains_key(path),
        after.directory_spec().files()[path] == before.directory_spec().files()[path],
{
}

} // verus!
