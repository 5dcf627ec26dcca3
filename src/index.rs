use vstd::prelude::*;
use crate::directory::Directory;
use crate::schema::Schema;

verus! {

/// An index: its durable store of files and its schema.
pub struct Index {
    directory: Directory,
    schema: Schema,
}

impl Index {
    pub closed spec fn directory_spec(&self) -> Directory {
        self.directory
    }

    pub closed spec fn schema_spec(&self) -> Schema {
        self.schema
    }

    /// An index over `directory` whose documents follow `schema`.
    pub fn create(directory: Directory, schema: Schema) -> (r: Index)
        ensures
            r.directory_spec() == directory,
            r.schema_spec() == schema,
    {
        Index { directory, schema }
    }

    pub fn directory(&self) -> (r: &Directory)
        ensures
            *r == self.directory_spec(),
    {
        &self.directory
    }

    pub fn schema(&self) -> (r: Schema)
        ensures
            r == self.schema_spec(),
    {
        self.schema.share()
    }

    /// Gives back the durable store and the schema.
    pub fn into_parts(self) -> (r: (Directory, Schema))
        ensures
            r.0 == self.directory_spec(),
            r.1 == self.schema_spec(),
    {
        (self.directory, self.schema)
    }
}

} // verus!
