use vstd::prelude::*;

use crate::todo::Todo;
use crate::todo::TodoView;

verus! {

/// The views of a sequence of records, in the same order.
pub open spec fn views_of(items: Seq<Todo>) -> Seq<TodoView> {
    items.map_values(|t: Todo| t@)
}

/// The sequence with every record structurally equal to `target` dropped and
/// all other records kept in order: the effect of the removal actions.
pub open spec fn removed(s: Seq<TodoView>, target: TodoView) -> Seq<TodoView>
    decreases s.len(),
{
    if s.len() == 0 {
        Seq::empty()
    } else if s.last() == target {
        removed(s.drop_last(), target)
    } else {
        removed(s.drop_last(), target).push(s.last())
    }
}

/// How many records of `s` are structurally equal to `target`.
pub open spec fn count_of(s: Seq<TodoView>, target: TodoView) -> nat
    decreases s.len(),
{
    if s.len() == 0 {
        0
    } else if s.last() == target {
        count_of(s.drop_last(), target) + 1
    } else {
        count_of(s.drop_last(), target)
    }
}

proof fn lemma_removed_push(s: Seq<TodoView>, x: TodoView, target: TodoView)
    ensures
        removed(s.push(x), target) == (if x == target {
            removed(s, target)
        } else {
            removed(s, target).push(x)
        }),
        count_of(s.push(x), target) == count_of(s, target) + (if x == target {
            1nat
        } else {
            0nat
        }),
{
    assert(s.push(x).drop_last() =~= s);
}

/// The commands that flow through the container's single update channel: the
/// three user-facing actions.
pub enum TodoUpdate {
    /// Append a newly built record with this description.
    Add(String),
    /// Mark this record done. The action deletes the record instead of
    /// setting its completion flag.
    Done(Todo),
    /// Drop every record structurally equal to this one.
    Remove(Todo),
}

/// The list-state container: the sole owner of the ordered collection of todo
/// records. Its view is the sequence of record views, in display order.
pub struct Todos {
    items: Vec<Todo>,
}

impl View for Todos {
    type V = Seq<TodoView>;

    closed spec fn view(&self) -> Seq<TodoView> {
        views_of(self.items@)
    }
}

fn retained_except(items: &Vec<Todo>, target: &Todo) -> (kept: Vec<Todo>)
    ensures
        views_of(kept@) == removed(views_of(items@), target@),
{
    let mut kept: Vec<Todo> = Vec::new();
    let n = items.len();
    let mut i: usize = 0;
    proof {
        assert(views_of(kept@) =~= Seq::<TodoView>::empty());
        assert(views_of(items@.subrange(0, 0)) =~= Seq::<TodoView>::empty());
    }
    while i < n
        invariant
            i <= n,
            n == items@.len(),
            views_of(kept@) == removed(views_of(items@.subrange(0, i as int)), target@),
        decreases n - i,
    {
        let ghost prefix = views_of(items@.subrange(0, i as int));
        if !(items[i] == *target) {
            kept.push(items[i].clone());
        }
        proof {
            assert(items@.subrange(0, i + 1) =~= items@.subrange(0, i as int).push(
                items@[i as int],
            ));
            assert(views_of(items@.subrange(0, i + 1)) =~= prefix.push(items@[i as int]@));
            lemma_removed_push(prefix, items@[i as int]@, target@);
            if items@[i as int]@ != target@ {
                assert(views_of(kept@) =~= removed(prefix, target@).push(items@[i as int]@));
            }
        }
        i = i + 1;
    }
    proof {
        assert(items@.subrange(0, n as int) =~= items@);
    }
    kept
}

impl Todos {
    /// The container starts with no records.
    pub fn new() -> (todos: Todos)
        ensures
            todos@ == Seq::<TodoView>::empty(),
    {
        let todos = Todos { items: Vec::new() };
        proof {
            assert(todos@ =~= Seq::<TodoView>::empty());
        }
        todos
    }

    /// The single mutation entry point: every write to the collection is one
    /// of the three commands applied here.
    ///
    /// Add appends one new record: the prior records stay in order, the new
    /// tail carries the given description, its flag is clear, and its
    /// identifier is freshly drawn (random, so nothing is promised of it).
    /// Done and Remove both retain exactly the records not structurally equal
    /// to the target.
    pub fn apply(&mut self, update: TodoUpdate)
        ensures
            (update matches TodoUpdate::Add(d) ==> {
                &&& final(self)@.len() == old(self)@.len() + 1
                &&& final(self)@.drop_last() == old(self)@
                &&& final(self)@ == old(self)@.push(final(self)@.last())
                &&& final(self)@.last().description == d@
                &&& !final(self)@.last().is_complete
                &&& exists|id: u128|
                    final(self)@ == old(self)@.push(
                        (TodoView { id, description: d@, is_complete: false }),
                    )
            }),
            (update matches TodoUpdate::Done(t) ==> final(self)@ == removed(old(self)@, t@)),
            (update matches TodoUpdate::Remove(t) ==> final(self)@ == removed(old(self)@, t@)),
    {
        match update {
            TodoUpdate::Add(description) => {
                let ghost d = description@;
                let todo = Todo::new(description);
                let ghost before = self.items@;
                self.items.push(todo);
                proof {
                    assert(self@ =~= views_of(before).push(todo@));
                    assert(self@.drop_last() =~= views_of(before));
                    assert(todo@ == (TodoView { id: todo@.id, description: d, is_complete: false }));
                }
            },
            TodoUpdate::Done(target) => {
                self.items = retained_except(&self.items, &target);
            },
            TodoUpdate::Remove(target) => {
                self.items = retained_except(&self.items, &target);
            },
        }
    }

    /// Add: append a newly built record with this description to the end.
    /// Every description is accepted, the empty one included.
    pub fn add(&mut self, description: String)
        ensures
            final(self)@.len() == old(self)@.len() + 1,
            final(self)@.drop_last() == old(self)@,
            final(self)@ == old(self)@.push(final(self)@.last()),
            final(self)@.last().description == description@,
            !final(self)@.last().is_complete,
            exists|id: u128|
                final(self)@ == old(self)@.push(
                    (TodoView { id, description: description@, is_complete: false }),
                ),
    {
        self.apply(TodoUpdate::Add(description));
    }

    /// Remove: retain all records except those structurally equal to the
    /// target. Afterwards no record equal to the target is left.
    pub fn remove(&mut self, target: &Todo)
        ensures
            final(self)@ == removed(old(self)@, target@),
            forall|i: int| 0 <= i < final(self)@.len() ==> final(self)@[i] != target@,
    {
        self.apply(TodoUpdate::Remove(target.clone()));
        proof {
            lemma_removed_absent(old(self)@, target@);
        }
    }

    /// Mark done: behaviorally identical to Remove — the record
    /// is deleted from the collection rather than having its flag set.
    pub fn mark_done(&mut self, target: &Todo)
        ensures
            final(self)@ == removed(old(self)@, target@),
            forall|i: int| 0 <= i < final(self)@.len() ==> final(self)@[i] != target@,
    {
        self.apply(TodoUpdate::Done(target.clone()));
        proof {
            lemma_removed_absent(old(self)@, target@);
        }
    }

    /// How many records the collection holds.
    pub fn len(&self) -> (n: usize)
        ensures
            n == self@.len(),
    {
        self.items.len()
    }

    /// The record at one display position.
    pub fn get(&self, i: usize) -> (t: &Todo)
        requires
            i < self@.len(),
        ensures
            t@ == self@[i as int],
    {
        &self.items[i]
    }

    /// The list renderer's input: one entry per record, in collection order,
    /// each carrying that record's description.
    pub fn visible(&self) -> (v: Vec<String>)
        ensures
            v@.len() == self@.len(),
            forall|i: int| 0 <= i < self@.len() ==> v@[i]@ == self@[i].description,
    {
        let mut v: Vec<String> = Vec::new();
        let n = self.items.len();
        let mut i: usize = 0;
        while i < n
            invariant
                i <= n,
                n == self@.len(),
                n == self.items@.len(),
                v@.len() == i,
                forall|j: int| 0 <= j < i ==> v@[j]@ == self@[j].description,
            decreases n - i,
        {
            v.push(self.items[i].description().clone());
            i = i + 1;
        }
        v
    }
}

impl Clone for Todos {
    /// A clone holds the same records in the same order.
    fn clone(&self) -> (r: Self)
        ensures
            r@ == self@,
    {
        let mut items: Vec<Todo> = Vec::new();
        let n = self.items.len();
        let mut i: usize = 0;
        while i < n
            invariant
                i <= n,
                n == self.items@.len(),
                items@.len() == i,
                forall|j: int| 0 <= j < i ==> items@[j]@ == self.items@[j]@,
            decreases n - i,
        {
            items.push(self.items[i].clone());
            i = i + 1;
        }
        let r = Todos { items };
        proof {
            assert(r@ =~= self@);
        }
        r
    }
}

/// The collection an empty container holds after one add per description, in
/// the given order; `ids` are the identifiers the adds drew. Each add pushes
/// one record whose description is the next one given and whose flag is
/// clear, which is exactly what `Todos::apply` ensures of `TodoUpdate::Add`.
pub open spec fn built_from(descriptions: Seq<Seq<char>>, ids: Seq<u128>) -> Seq<TodoView>
    decreases descriptions.len(),
{
    if descriptions.len() == 0 {
        Seq::empty()
    } else {
        built_from(descriptions.drop_last(), ids.drop_last()).push(
            TodoView {
                id: ids.last(),
                description: descriptions.last(),
                is_complete: false,
            },
        )
    }
}

/// Law: each single add is one step of `built_from`: a collection built from
/// some descriptions and identifiers, after one more add, is built from those
/// descriptions and identifiers each extended by one. Together with
/// `lemma_adds_in_order` this carries `Todos::add`'s contract over any
/// sequence of adds.
pub proof fn lemma_add_step(
    descriptions: Seq<Seq<char>>,
    ids: Seq<u128>,
    d: Seq<char>,
    id: u128,
)
    ensures
        built_from(descriptions, ids).push((TodoView { id, description: d, is_complete: false }))
            == built_from(descriptions.push(d), ids.push(id)),
{
    assert(descriptions.push(d).drop_last() =~= descriptions);
    assert(ids.push(id).drop_last() =~= ids);
}

/// Law: for every sequence of add-operations with descriptions d1..dn, the
/// resulting collection has length n and displays d1..dn in that exact order,
/// whatever identifiers the adds drew. An empty description is no exception:
/// it too adds exactly one record.
pub proof fn lemma_adds_in_order(descriptions: Seq<Seq<char>>, ids: Seq<u128>)
    requires
        ids.len() == descriptions.len(),
    ensures
        built_from(descriptions, ids).len() == descriptions.len(),
        forall|i: int|
            0 <= i < descriptions.len() ==> #[trigger] built_from(descriptions, ids)[i].description
                == descriptions[i],
        forall|i: int|
            0 <= i < descriptions.len() ==> !(#[trigger] built_from(descriptions, ids)[i]).is_complete,
    decreases descriptions.len(),
{
    if descriptions.len() > 0 {
        lemma_adds_in_order(descriptions.drop_last(), ids.drop_last());
        let prev = built_from(descriptions.drop_last(), ids.drop_last());
        assert forall|i: int| 0 <= i < descriptions.len() implies #[trigger] built_from(
            descriptions,
            ids,
        )[i].description == descriptions[i] && !built_from(descriptions, ids)[i].is_complete by {
            if i < descriptions.len() - 1 {
                assert(built_from(descriptions, ids)[i] == prev[i]);
                assert(prev[i].description == descriptions.drop_last()[i]);
            }
        }
    }
}

/// Law: a removal leaves no record structurally equal to the target behind.
/// With the "done" action wired to the same retention, invoking "done" on a
/// record removes it from the visible list.
pub proof fn lemma_removed_absent(s: Seq<TodoView>, target: TodoView)
    ensures
        forall|i: int| 0 <= i < removed(s, target).len() ==> removed(s, target)[i] != target,
    decreases s.len(),
{
    if s.len() > 0 {
        lemma_removed_absent(s.drop_last(), target);
        let r = removed(s.drop_last(), target);
        assert forall|i: int| 0 <= i < removed(s, target).len() implies removed(s, target)[i]
            != target by {
            if s.last() == target {
                assert(removed(s, target)[i] == r[i]);
                assert(r[i] != target);
            } else if i < r.len() {
                assert(removed(s, target)[i] == r[i]);
                assert(r[i] != target);
            } else {
                assert(removed(s, target)[i] == s.last());
            }
        }
    }
}

/// Law: a removal drops exactly as many records as are structurally equal to
/// the target, and no others.
pub proof fn lemma_removed_len(s: Seq<TodoView>, target: TodoView)
    ensures
        removed(s, target).len() + count_of(s, target) == s.len(),
    decreases s.len(),
{
    if s.len() > 0 {
        lemma_removed_len(s.drop_last(), target);
    }
}

/// Law: a sequence without any record equal to the target is left unchanged
/// by the removal.
pub proof fn lemma_removed_none(s: Seq<TodoView>, target: TodoView)
    requires
        count_of(s, target) == 0,
    ensures
        removed(s, target) == s,
    decreases s.len(),
{
    if s.len() > 0 {
        lemma_removed_none(s.drop_last(), target);
        assert(removed(s, target) =~= s);
    }
}

/// Law: removing a record removes exactly one element — the one structurally
/// equal to the target — when exactly one such record is present; all records
/// before and after it are kept, in order. Identifiers are drawn fresh at
/// creation, so structural equality is in practice unique per record even
/// when descriptions repeat.
pub proof fn lemma_remove_exactly_one(
    before: Seq<TodoView>,
    left: Seq<TodoView>,
    right: Seq<TodoView>,
    target: TodoView,
)
    requires
        before == left + seq![target] + right,
        count_of(left, target) == 0,
        count_of(right, target) == 0,
    ensures
        removed(before, target) == left + right,
        removed(before, target).len() + 1 == before.len(),
    decreases right.len(),
{
    if right.len() == 0 {
        assert(before.drop_last() =~= left);
        assert(before.last() == target);
        lemma_removed_none(left, target);
        assert(removed(before, target) =~= left + right);
    } else {
        assert(right.last() != target);
        assert(before.last() == right.last());
        assert(before.drop_last() =~= left + seq![target] + right.drop_last());
        lemma_remove_exactly_one(before.drop_last(), left, right.drop_last(), target);
        assert(removed(before, target) =~= left + right);
    }
}

} // verus!
