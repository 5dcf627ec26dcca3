use std::rc::Rc;
use vstd::prelude::*;

verus! {

/// Relies on `Rc::clone`: the copy points to the same value.
#[verifier::external_body]
fn share_names(names: &Rc<Vec<String>>) -> (r: Rc<Vec<String>>)
    ensures
        r == *names,
{
    Rc::clone(names)
}

/// The field definitions of an index, shared read-only by all of its segments.
#[derive(Clone, Debug)]
pub struct Schema {
    field_names: Rc<Vec<String>>,
}

impl View for Schema {
    type V = Seq<Seq<char>>;

    closed spec fn view(&self) -> Seq<Seq<char>> {
        self.field_names.deep_view()
    }
}

impl Schema {
    /// A schema with the given field names, in order.
    pub fn new(field_names: Vec<String>) -> (r: Schema)
        ensures
            r@ == field_names.deep_view(),
    {
        Schema { field_names: Rc::new(field_names) }
    }

    /// Another handle on the same schema; the field definitions are not copied.
    pub fn share(&self) -> (r: Schema)
        ensures
            r == *self,
    {
        Schema { field_names: share_names(&self.field_names) }
    }

    pub fn num_fields(&self) -> (r: usize)
        ensures
            r == self@.len(),
    {
        self.field_names.len()
    }

    pub fn field_name(&self, i: usize) -> (r: &String)
        requires
            i < self@.len(),
        ensures
            r@ == self@[i as int],
    {
        &self.field_names[i]
    }
}

} // verus!
