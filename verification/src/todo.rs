use vstd::prelude::*;

verus! {

/// The mathematical value of one todo record: its identifier, the characters
/// of its description, and its completion flag.
pub ghost struct TodoView {
    pub id: u128,
    pub description: Seq<char>,
    pub is_complete: bool,
}

/// One task: an identifier drawn once at creation and never changed, a
/// description set once, and a completion flag that no exposed action ever
/// sets (the "done" action removes the record instead of flipping it).
#[derive(Debug)]
pub struct Todo {
    id: u128,
    description: String,
    is_complete: bool,
}

impl View for Todo {
    type V = TodoView;

    closed spec fn view(&self) -> TodoView {
        TodoView {
            id: self.id,
            description: self.description@,
            is_complete: self.is_complete,
        }
    }
}

impl Clone for Todo {
    /// A clone carries the same identifier, description and flag.
    fn clone(&self) -> (r: Self)
        ensures
            r@ == self@,
    {
        Todo {
            id: self.id,
            description: self.description.clone(),
            is_complete: self.is_complete,
        }
    }
}

impl PartialEq for Todo {
    /// Structural equality over all fields: the key the removal actions use.
    fn eq(&self, other: &Todo) -> (r: bool) {
        self.id == other.id && self.description == other.description
            && self.is_complete == other.is_complete
    }
}

impl vstd::std_specs::cmp::PartialEqSpecImpl for Todo {
    open spec fn obeys_eq_spec() -> bool {
        true
    }

    open spec fn eq_spec(&self, other: &Todo) -> bool {
        self@ == other@
    }
}

/// Relies on uuid::Uuid::new_v4, read out with uuid::Uuid::as_u128: a fresh
/// random version-4 identifier. The value is random, so nothing is promised
/// of it.
#[verifier::external_body]
fn fresh_id() -> u128 {
    uuid::Uuid::new_v4().as_u128()
}

impl Todo {
    /// The single factory: a record with a freshly drawn identifier, the
    /// given description, and the completion flag cleared. Any description is
    /// accepted, the empty one included: no validation is performed.
    pub fn new(description: String) -> (t: Todo)
        ensures
            t@.description == description@,
            !t@.is_complete,
    {
        Todo { id: fresh_id(), description, is_complete: false }
    }

    /// The description text, for display.
    pub fn description(&self) -> (d: &String)
        ensures
            d@ == self@.description,
    {
        &self.description
    }

    /// Whether the record is marked complete.
    pub fn is_complete(&self) -> (b: bool)
        ensures
            b == self@.is_complete,
    {
        self.is_complete
    }
}

} // verus!
