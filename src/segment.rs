use vstd::prelude::*;
use crate::directory::{Directory, OpenReadError, OpenWriteError, ReadOnlySource, WritePtr};
use crate::index::Index;
use crate::schema::Schema;
use crate::segment_component::{extension_spec, SegmentComponent};
use crate::segment_id::{lemma_hex_digits_len, SegmentId};
use crate::segment_meta::{relative_path_spec, Opstamp, SegmentMeta, SegmentMetaView};

verus! {

/// Where a segment's files live: only in memory, or in the durable store of its index.
#[derive(Clone)]
pub enum SegmentDirectory {
    Persisted(Directory),
    Volatile(Directory),
}

impl SegmentDirectory {
    /// The files of the active store.
    pub open spec fn files(&self) -> Map<Seq<char>, Seq<u8>> {
        match self {
            SegmentDirectory::Persisted(d) => d@,
            SegmentDirectory::Volatile(d) => d@,
        }
    }

    pub fn is_volatile(&self) -> (r: bool)
        ensures
            r == self is Volatile,
    {
        match self {
            SegmentDirectory::Persisted(_) => false,
            SegmentDirectory::Volatile(_) => true,
        }
    }

    /// Opens the file at `path` in the active store for reading.
    pub fn open_read(&self, path: &String) -> (r: Result<ReadOnlySource, OpenReadError>)
        ensures
            match r {
                Ok(source) => self.files().contains_key(path@) && source@ == self.files()[path@],
                Err(OpenReadError::FileDoesNotExist(p)) => !self.files().contains_key(path@)
                    && p@ == path@,
            },
    {
        match self {
            SegmentDirectory::Persisted(d) => d.open_read(path),
            SegmentDirectory::Volatile(d) => d.open_read(path),
        }
    }

    /// Opens a new file at `path` in the active store for writing.
    pub fn open_write(&mut self, path: &String) -> (r: Result<WritePtr, OpenWriteError>)
        ensures
            (*final(self) is Volatile) == (*old(self) is Volatile),
            match r {
                Ok(w) => !old(self).files().contains_key(path@) && final(self).files()
                    == old(self).files().insert(path@, Seq::empty()) && w.path_spec() == path@
                    && w@ == Seq::<u8>::empty(),
                Err(OpenWriteError::FileAlreadyExists(p)) => old(self).files().contains_key(path@)
                    && final(self).files() == old(self).files() && p@ == path@,
            },
    {
        match self {
            SegmentDirectory::Persisted(d) => d.open_write(path),
            SegmentDirectory::Volatile(d) => d.open_write(path),
        }
    }

    /// Closes a write handle into the active store.
    pub fn close_write(&mut self, w: WritePtr)
        ensures
            (*final(self) is Volatile) == (*old(self) is Volatile),
            final(self).files() == old(self).files().insert(w.path_spec(), w@),
    {
        match self {
            SegmentDirectory::Persisted(d) => d.close_write(w),
            SegmentDirectory::Volatile(d) => d.close_write(w),
        }
    }
}

impl From<Directory> for SegmentDirectory {
    /// A durable store becomes the persisted variant.
    fn from(directory: Directory) -> SegmentDirectory {
        SegmentDirectory::Persisted(directory)
    }
}

impl vstd::std_specs::convert::FromSpecImpl<Directory> for SegmentDirectory {
    open spec fn obeys_from_spec() -> bool {
        true
    }

    open spec fn from_spec(directory: Directory) -> SegmentDirectory {
        SegmentDirectory::Persisted(directory)
    }
}

/// A segment: a piece of the index, with its schema, its descriptor and its files.
#[derive(Clone)]
pub struct Segment {
    schema: Schema,
    meta: SegmentMeta,
    directory: SegmentDirectory,
}

impl Segment {
    pub closed spec fn schema_spec(&self) -> Schema {
        self.schema
    }

    pub closed spec fn meta_spec(&self) -> SegmentMetaView {
        self.meta@
    }

    pub closed spec fn directory_spec(&self) -> SegmentDirectory {
        self.directory
    }

    /// The files of the segment's active store.
    pub open spec fn files(&self) -> Map<Seq<char>, Seq<u8>> {
        self.directory_spec().files()
    }

    /// The path of one of the segment's files.
    pub open spec fn path_of(&self, component: SegmentComponent) -> Seq<char> {
        relative_path_spec(self.meta_spec().id, component)
    }

    /// What a read of a component finds: its bytes, or nothing when the file is absent.
    pub open spec fn read_spec(&self, component: SegmentComponent) -> Option<Seq<u8>> {
        if self.files().contains_key(self.path_of(component)) {
            Some(self.files()[self.path_of(component)])
        } else {
            None
        }
    }

    /// Returns the index's schema; the field definitions are shared, not copied.
    pub fn schema(&self) -> (r: Schema)
        ensures
            r == self.schema_spec(),
    {
        self.schema.share()
    }

    /// A segment bound to the durable store of `index`, described by `meta`.
    pub fn for_index(index: Index, meta: SegmentMeta) -> (r: Segment)
        ensures
            r.directory_spec() == SegmentDirectory::Persisted(index.directory_spec()),
            r.schema_spec() == index.schema_spec(),
            r.meta_spec() == meta@,
    {
        let (directory, schema) = index.into_parts();
        Segment { directory: SegmentDirectory::Persisted(directory), schema, meta }
    }

    /// A segment with a fresh, empty store of its own in memory, apart from any index.
    pub fn new_unpersisted(meta: SegmentMeta, schema: Schema) -> (r: Segment)
        ensures
            r.directory_spec() is Volatile,
            r.files() == Map::<Seq<char>, Seq<u8>>::empty(),
            r.schema_spec() == schema,
            r.meta_spec() == meta@,
    {
        Segment { schema, meta, directory: SegmentDirectory::Volatile(Directory::new()) }
    }

    /// Returns the segment's descriptor.
    pub fn meta(&self) -> (r: &SegmentMeta)
        ensures
            r@ == self.meta_spec(),
    {
        &self.meta
    }

    pub fn directory(&self) -> (r: &SegmentDirectory)
        ensures
            *r == self.directory_spec(),
    {
        &self.directory
    }

    /// Sets the document count once the first write pass of a fresh segment is over.
    pub fn with_max_doc(self, max_doc: u32) -> (r: Segment)
        requires
            self.meta_spec().max_doc == 0,
            self.meta_spec().deletes is None,
        ensures
            r.meta_spec() == (SegmentMetaView { max_doc, ..self.meta_spec() }),
            r.directory_spec() == self.directory_spec(),
            r.schema_spec() == self.schema_spec(),
    {
        Segment {
            directory: self.directory,
            schema: self.schema,
            meta: self.meta.with_max_doc(max_doc),
        }
    }

    /// Records a later deletion event; an opstamp older than the one recorded is not accepted.
    pub fn with_delete_meta(self, num_deleted_docs: u32, opstamp: Opstamp) -> (r: Segment)
        requires
            num_deleted_docs <= self.meta_spec().max_doc,
            self.meta_spec().accepts_opstamp(opstamp),
        ensures
            r.meta_spec() == (SegmentMetaView {
                deletes: Some(crate::segment_meta::DeleteMeta { num_deleted_docs, opstamp }),
                ..self.meta_spec()
            }),
            r.directory_spec() == self.directory_spec(),
            r.schema_spec() == self.schema_spec(),
    {
        Segment {
            directory: self.directory,
            schema: self.schema,
            meta: self.meta.with_delete_meta(num_deleted_docs, opstamp),
        }
    }

    /// Returns the segment's id.
    pub fn id(&self) -> (r: SegmentId)
        ensures
            r == self.meta_spec().id,
    {
        self.meta.id()
    }

    /// Returns the path of one of the segment's files: the id joined with the component's
    /// suffix.
    pub fn relative_path(&self, component: SegmentComponent) -> (r: String)
        ensures
            r@ == self.path_of(component),
    {
        self.meta.relative_path(component)
    }

    /// Opens one of the segment's files for reading.
    pub fn open_read(&self, component: SegmentComponent) -> (r: Result<
        ReadOnlySource,
        OpenReadError,
    >)
        ensures
            match r {
                Ok(source) => self.read_spec(component) == Some(source@),
                Err(OpenReadError::FileDoesNotExist(p)) => self.read_spec(component) is None
                    && p@ == self.path_of(component),
            },
    {
        let path = self.relative_path(component);
        let source = self.directory.open_read(&path)?;
        Ok(source)
    }

    /// Opens one of the segment's files for writing; the file must not exist yet.
    pub fn open_write(&mut self, component: SegmentComponent) -> (r: Result<
        WritePtr,
        OpenWriteError,
    >)
        ensures
            final(self).meta_spec() == old(self).meta_spec(),
            final(self).schema_spec() == old(self).schema_spec(),
            (final(self).directory_spec() is Volatile) == (old(self).directory_spec() is Volatile),
            match r {
                Ok(w) => old(self).read_spec(component) is None && final(self).files()
                    == old(self).files().insert(old(self).path_of(component), Seq::empty())
                    && w.path_spec() == old(self).path_of(component) && w@ == Seq::<u8>::empty(),
                Err(OpenWriteError::FileAlreadyExists(p)) => old(self).read_spec(component) is Some
                    && final(self).files() == old(self).files() && p@ == old(self).path_of(
                    component,
                ),
            },
    {
        let path = self.relative_path(component);
        let write = self.directory.open_write(&path)?;
        Ok(write)
    }

    /// Releases a write handle: the bytes written through it become the file's content.
    pub fn close_write(&mut self, w: WritePtr)
        ensures
            final(self).meta_spec() == old(self).meta_spec(),
            final(self).schema_spec() == old(self).schema_spec(),
            (final(self).directory_spec() is Volatile) == (old(self).directory_spec() is Volatile),
            final(self).files() == old(self).files().insert(w.path_spec(), w@),
    {
        self.directory.close_write(w);
    }
}

/// Bytes written to a component through a handle, once the handle is closed, are exactly what a
/// read of that component returns.
pub proof fn lemma_read_after_write(
    before: Segment,
    after: Segment,
    w: WritePtr,
    component: SegmentComponent,
)
    requires
        w.path_spec() == before.path_of(component),
        after.meta_spec() == before.meta_spec(),
        after.files() == before.files().insert(w.path_spec(), w@),
    ensures
        after.read_spec(component) == Some(w@),
{
}

/// The path of a component depends on the segment's id and the component alone: two segments
/// with one id give one path for each component, whatever else they hold.
pub proof fn lemma_relative_path_determined(a: Segment, b: Segment, component: SegmentComponent)
    requires
        a.meta_spec().id == b.meta_spec().id,
    ensures
        a.path_of(component) == b.path_of(component),
        a.path_of(component) == relative_path_spec(a.meta_spec().id, component),
{
}

/// Paths address files without ambiguity: two segments with different ids, or two different
/// components, never share a path.
pub proof fn lemma_distinct_paths(
    a: Segment,
    b: Segment,
    ca: SegmentComponent,
    cb: SegmentComponent,
)
    requires
        a.meta_spec().id != b.meta_spec().id || ca != cb,
    ensures
        a.path_of(ca) != b.path_of(cb),
{
    let ia = a.meta_spec().id;
    let ib = b.meta_spec().id;
    lemma_hex_digits_len(ia.id as nat, 32);
    lemma_hex_digits_len(ib.id as nat, 32);
    reveal_strlit(".idx");
    reveal_strlit(".pos");
    reveal_strlit(".posidx");
    reveal_strlit(".fast");
    reveal_strlit(".fieldnorm");
    reveal_strlit(".term");
    reveal_strlit(".store");
    reveal_strlit(".del");
    let pa = a.path_of(ca);
    let pb = b.path_of(cb);
    if pa == pb {
        assert(pa.subrange(0, 32) =~= ia.uuid_spec());
        assert(pb.subrange(0, 32) =~= ib.uuid_spec());
        if ia != ib {
            SegmentId::lemma_uuid_injective(ia, ib);
        }
        assert(pa.subrange(32, pa.len() as int) =~= extension_spec(ca));
        assert(pb.subrange(32, pb.len() as int) =~= extension_spec(cb));
        assert(extension_spec(ca).len() == extension_spec(cb).len());
        assert(extension_spec(ca)[1] == extension_spec(cb)[1]);
        assert(extension_spec(ca)[2] == extension_spec(cb)[2]);
    }
}

} // verus!
