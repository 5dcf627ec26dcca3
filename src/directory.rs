use vstd::prelude::*;

verus! {

/// Failure to open a file for reading.
#[derive(Debug)]
pub enum OpenReadError {
    /// No file lives at the path.
    FileDoesNotExist(String),
}

/// Failure to open a file for writing.
#[derive(Debug)]
pub enum OpenWriteError {
    /// A file already lives at the path, written or held by a writer.
    FileAlreadyExists(String),
}

/// A read-only copy of a file's bytes.
#[derive(Debug)]
pub struct ReadOnlySource {
    data: Vec<u8>,
}

impl View for ReadOnlySource {
    type V = Seq<u8>;

    closed spec fn view(&self) -> Seq<u8> {
        self.data@
    }
}

impl ReadOnlySource {
    pub fn as_slice(&self) -> (r: &[u8])
        ensures
            r@ == self@,
    {
        self.data.as_slice()
    }

    pub fn len(&self) -> (r: usize)
        ensures
            r == self@.len(),
    {
        self.data.len()
    }
}

/// An exclusive handle that gathers the bytes of one file until it is closed.
#[derive(Debug)]
pub struct WritePtr {
    path: String,
    data: Vec<u8>,
}

impl View for WritePtr {
    type V = Seq<u8>;

    closed spec fn view(&self) -> Seq<u8> {
        self.data@
    }
}

impl WritePtr {
    /// The path that the bytes go to.
    pub closed spec fn path_spec(&self) -> Seq<char> {
        self.path@
    }

    pub fn path(&self) -> (r: &String)
        ensures
            r@ == self.path_spec(),
    {
        &self.path
    }

    /// Appends bytes to the file.
    pub fn write_all(&mut self, buf: &[u8])
        ensures
            final(self)@ == old(self)@ + buf@,
            final(self).path_spec() == old(self).path_spec(),
    {
        let mut i: usize = 0;
        while i < buf.len()
            invariant
                i <= buf@.len(),
                self@ == old(self)@ + buf@.subrange(0, i as int),
                self.path_spec() == old(self).path_spec(),
            decreases buf@.len() - i,
        {
            self.data.push(buf[i]);
            i = i + 1;
            assert(self@ =~= old(self)@ + buf@.subrange(0, i as int));
        }
        assert(buf@.subrange(0, i as int) =~= buf@);
    }
}

struct FileEntry {
    path: String,
    data: Vec<u8>,
}

/// The entries hold the files of the map, each path once.
spec fn indexes(entries: Seq<FileEntry>, files: Map<Seq<char>, Seq<u8>>) -> bool {
    &&& forall|i: int|
        0 <= i < entries.len() ==> {
            &&& files.contains_key(#[trigger] entries[i].path@)
            &&& files[entries[i].path@] == entries[i].data@
        }
    &&& forall|i: int, j: int|
        0 <= i < entries.len() && 0 <= j < entries.len() && i != j ==> #[trigger] entries[i].path@
            != #[trigger] entries[j].path@
    &&& forall|p: Seq<char>|
        #[trigger] files.contains_key(p) ==> exists|i: int|
            0 <= i < entries.len() && #[trigger] entries[i].path@ == p
}

/// The paths of the first `n` entries.
spec fn paths_upto(entries: Seq<FileEntry>, n: int) -> Set<Seq<char>> {
    Set::new(|p: Seq<char>| exists|j: int| 0 <= j < n && #[trigger] entries[j].path@ == p)
}

/// A store of files, each a sequence of bytes under a path.
pub struct Directory {
    entries: Vec<FileEntry>,
    files: Ghost<Map<Seq<char>, Seq<u8>>>,
}

impl View for Directory {
    type V = Map<Seq<char>, Seq<u8>>;

    closed spec fn view(&self) -> Map<Seq<char>, Seq<u8>> {
        self.files@
    }
}

impl Directory {
    #[verifier::type_invariant]
    spec fn inv(self) -> bool {
        indexes(self.entries@, self.files@)
    }

    /// An empty store.
    pub fn new() -> (r: Directory)
        ensures
            r@ == Map::<Seq<char>, Seq<u8>>::empty(),
    {
        Directory { entries: Vec::new(), files: Ghost(Map::empty()) }
    }

    fn find(&self, path: &String) -> (r: Option<usize>)
        ensures
            match r {
                Some(i) => i < self.entries@.len() && self.entries@[i as int].path@ == path@
                    && self@.contains_key(path@),
                None => !self@.contains_key(path@),
            },
    {
        proof {
            use_type_invariant(self);
        }
        let mut i: usize = 0;
        while i < self.entries.len()
            invariant
                i <= self.entries@.len(),
                indexes(self.entries@, self.files@),
                forall|j: int| 0 <= j < i ==> self.entries@[j].path@ != path@,
            decreases self.entries@.len() - i,
        {
            if self.entries[i].path == *path {
                return Some(i);
            }
            i = i + 1;
        }
        None
    }

    /// Whether a file lives at `path`.
    pub fn contains(&self, path: &String) -> (r: bool)
        ensures
            r == self@.contains_key(path@),
    {
        self.find(path).is_some()
    }

    /// Opens the file at `path` for reading.
    pub fn open_read(&self, path: &String) -> (r: Result<ReadOnlySource, OpenReadError>)
        ensures
            match r {
                Ok(source) => self@.contains_key(path@) && source@ == self@[path@],
                Err(OpenReadError::FileDoesNotExist(p)) => !self@.contains_key(path@) && p@
                    == path@,
            },
    {
        proof {
            use_type_invariant(self);
        }
        match self.find(path) {
            Some(i) => {
                let data = self.entries[i].data.clone();
                assert(data@ =~= self@[path@]);
                Ok(ReadOnlySource { data })
            },
            None => Err(OpenReadError::FileDoesNotExist(path.clone())),
        }
    }

    /// Stores `data` at `path`, replacing what was there.
    pub fn atomic_write(&mut self, path: &String, data: Vec<u8>)
        ensures
            final(self)@ == old(self)@.insert(path@, data@),
    {
        proof {
            use_type_invariant(&*self);
        }
        let found = self.find(path);
        let ghost files = self.files@.insert(path@, data@);
        let mut taken = Directory::new();
        core::mem::swap(self, &mut taken);
        let Directory { mut entries, files: _ } = taken;
        let entry = FileEntry { path: path.clone(), data };
        match found {
            Some(i) => {
                entries.set(i, entry);
            },
            None => {
                entries.push(entry);
            },
        }
        assert forall|p: Seq<char>| #[trigger] files.contains_key(p) implies exists|k: int|
            0 <= k < entries@.len() && #[trigger] entries@[k].path@ == p by {
            if p == path@ {
                match found {
                    Some(i) => assert(entries@[i as int].path@ == p),
                    None => assert(entries@[old(self).entries@.len() as int].path@ == p),
                }
            } else {
                let k = choose|k: int|
                    0 <= k < old(self).entries@.len() && #[trigger] old(self).entries@[k].path@
                        == p;
                assert(entries@[k].path@ == p);
            }
        }
        assert forall|k: int| 0 <= k < entries@.len() implies {
            &&& files.contains_key(#[trigger] entries@[k].path@)
            &&& files[entries@[k].path@] == entries@[k].data@
        } by {
            if entries@[k].path@ != path@ {
                assert(old(self).entries@[k] == entries@[k]);
            }
        }
        assert forall|a: int, b: int|
            0 <= a < entries@.len() && 0 <= b < entries@.len() && a != b implies #[trigger] entries@[a].path@
            != #[trigger] entries@[b].path@ by {
            if entries@[a].path@ != path@ && entries@[b].path@ != path@ {
                assert(old(self).entries@[a] == entries@[a]);
                assert(old(self).entries@[b] == entries@[b]);
            } else if entries@[a].path@ == path@ && entries@[b].path@ == path@ {
                match found {
                    Some(i) => {
                        if a != i {
                            assert(old(self).entries@[a] == entries@[a]);
                        } else {
                            assert(old(self).entries@[b] == entries@[b]);
                        }
                    },
                    None => {
                        if a < old(self).entries@.len() {
                            assert(old(self).entries@[a] == entries@[a]);
                        } else {
                            assert(old(self).entries@[b] == entries@[b]);
                        }
                    },
                }
            }
        }
        assert(indexes(entries@, files));
        *self = Directory { entries, files: Ghost(files) };
    }

    /// Opens a new file at `path` for writing: the path is taken at once, empty, and its bytes
    /// come when the handle is closed.
    pub fn open_write(&mut self, path: &String) -> (r: Result<WritePtr, OpenWriteError>)
        ensures
            match r {
                Ok(w) => !old(self)@.contains_key(path@) && final(self)@ == old(self)@.insert(
                    path@,
                    Seq::empty(),
                ) && w.path_spec() == path@ && w@ == Seq::<u8>::empty(),
                Err(OpenWriteError::FileAlreadyExists(p)) => old(self)@.contains_key(path@)
                    && final(self)@ == old(self)@ && p@ == path@,
            },
    {
        if self.contains(path) {
            return Err(OpenWriteError::FileAlreadyExists(path.clone()));
        }
        self.atomic_write(path, Vec::new());
        Ok(WritePtr { path: path.clone(), data: Vec::new() })
    }

    /// Closes a write handle: its bytes become the file's content.
    pub fn close_write(&mut self, w: WritePtr)
        ensures
            final(self)@ == old(self)@.insert(w.path_spec(), w@),
    {
        let WritePtr { path, data } = w;
        self.atomic_write(&path, data);
    }

    /// Copies every file of `src` into this store; a file of `src` replaces one at the same
    /// path here.
    pub fn copy_files_from(&mut self, src: &Directory)
        ensures
            final(self)@ == old(self)@.union_prefer_right(src@),
    {
        proof {
            use_type_invariant(src);
        }
        let mut i: usize = 0;
        while i < src.entries.len()
            invariant
                i <= src.entries@.len(),
                indexes(src.entries@, src.files@),
                self@ == old(self)@.union_prefer_right(src@.restrict(paths_upto(src.entries@, i as int))),
            decreases src.entries@.len() - i,
        {
            let data = src.entries[i].data.clone();
            assert(data@ =~= src@[src.entries@[i as int].path@]);
            self.atomic_write(&src.entries[i].path, data);
            assert(paths_upto(src.entries@, i + 1) =~= paths_upto(src.entries@, i as int).insert(
                src.entries@[i as int].path@,
            ));
            i = i + 1;
            assert(self@ =~= old(self)@.union_prefer_right(
                src@.restrict(paths_upto(src.entries@, i as int)),
            ));
        }
        assert(src@.restrict(paths_upto(src.entries@, i as int)) =~= src@);
    }
}

impl Clone for Directory {
    /// A deep copy: later writes to either store do not reach the other.
    fn clone(&self) -> Directory {
        proof {
            use_type_invariant(self);
        }
        let mut entries: Vec<FileEntry> = Vec::new();
        let mut i: usize = 0;
        while i < self.entries.len()
            invariant
                i <= self.entries@.len(),
                entries@.len() == i,
                forall|j: int|
                    0 <= j < i ==> #[trigger] entries@[j].path@ == self.entries@[j].path@
                        && entries@[j].data@ == self.entries@[j].data@,
            decreases self.entries@.len() - i,
        {
            let data = self.entries[i].data.clone();
            assert(data@ =~= self.entries@[i as int].data@);
            entries.push(FileEntry { path: self.entries[i].path.clone(), data });
            i = i + 1;
        }
        assert forall|p: Seq<char>| #[trigger] self.files@.contains_key(p) implies exists|k: int|
            0 <= k < entries@.len() && #[trigger] entries@[k].path@ == p by {
            let k = choose|k: int|
                0 <= k < self.entries@.len() && #[trigger] self.entries@[k].path@ == p;
            assert(entries@[k].path@ == p);
        }
        assert forall|a: int, b: int|
            0 <= a < entries@.len() && 0 <= b < entries@.len() && a != b implies #[trigger] entries@[a].path@
            != #[trigger] entries@[b].path@ by {
            assert(self.entries@[a].path@ == entries@[a].path@);
            assert(self.entries@[b].path@ == entries@[b].path@);
        }
        assert(indexes(entries@, self.files@));
        Directory { entries, files: Ghost(self.files@) }
    }
}

} // verus!
