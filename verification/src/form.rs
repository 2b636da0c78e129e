use vstd::prelude::*;

use crate::todos::Todos;

verus! {

/// The one text field of the creation form, as the form logic sees it: the
/// text it currently displays. Its view is that text's characters.
pub struct InputField {
    value: String,
}

impl View for InputField {
    type V = Seq<char>;

    closed spec fn view(&self) -> Seq<char> {
        self.value@
    }
}

impl InputField {
    /// The field starts out empty.
    pub fn new() -> (field: InputField)
        ensures
            field@ == Seq::<char>::empty(),
    {
        InputField { value: String::new() }
    }

    /// The user (or the hosting document) puts text into the field.
    pub fn set_text(&mut self, text: String)
        ensures
            final(self)@ == text@,
    {
        self.value = text;
    }

    /// The text the field currently displays.
    pub fn text(&self) -> (t: &String)
        ensures
            t@ == self@,
    {
        &self.value
    }
}

/// The creation form's submit handler: read the field's current text, append
/// a new record with that description to the collection, then clear the
/// field. No validation: an empty or whitespace-only text is accepted and
/// appended like any other. After the call the field displays the empty
/// string, regardless of what was submitted.
pub fn submit_create(todos: &mut Todos, input: &mut InputField)
    ensures
        final(todos)@.len() == old(todos)@.len() + 1,
        final(todos)@.drop_last() == old(todos)@,
        final(todos)@ == old(todos)@.push(final(todos)@.last()),
        final(todos)@.last().description == old(input)@,
        !final(todos)@.last().is_complete,
        final(input)@ == Seq::<char>::empty(),
{
    let description = input.value.clone();
    todos.add(description);
    input.value = String::new();
}

} // verus!
