//! The reference in-memory implementation of the repository contract.

use vstd::prelude::*;
use crate::todo_entity::{Todo, TodoModel};
use crate::todo_error::TodoError;
use crate::todo_repository::TodoRepository;

verus! {

/// In-memory implementation of [`TodoRepository`].
///
/// The store is modelled as a map from identifier to stored snapshot:
/// the view of a repository is exactly that map.  Every operation hands
/// out deep, independent copies, so later mutation of a returned todo
/// cannot corrupt the stored snapshot.
pub struct InMemoryTodoRepository {
    todos: Vec<Todo>,
}

/// No two stored snapshots share an identifier.
spec fn distinct_ids(s: Seq<Todo>) -> bool {
    forall|i: int, j: int| 0 <= i < j < s.len() ==> s[i].id@ != s[j].id@
}

/// The map held by a sequence of snapshots; a later snapshot with the
/// same identifier overwrites an earlier one.
spec fn stored_map(s: Seq<Todo>) -> Map<Seq<char>, TodoModel>
    decreases s.len(),
{
    if s.len() == 0 {
        Map::empty()
    } else {
        stored_map(s.drop_last()).insert(s.last().id@, s.last()@)
    }
}

impl View for InMemoryTodoRepository {
    type V = Map<Seq<char>, TodoModel>;

    closed spec fn view(&self) -> Map<Seq<char>, TodoModel> {
        stored_map(self.todos@)
    }
}

proof fn lemma_distinct_drop_last(s: Seq<Todo>)
    requires
        distinct_ids(s),
        s.len() > 0,
    ensures
        distinct_ids(s.drop_last()),
{
    assert forall|i: int, j: int| 0 <= i < j < s.drop_last().len() implies s.drop_last()[i].id@
        != s.drop_last()[j].id@ by {
        assert(s.drop_last()[i] == s[i]);
        assert(s.drop_last()[j] == s[j]);
    }
}

/// A key is stored exactly when some snapshot carries it.
proof fn lemma_stored_map_contains(s: Seq<Todo>, k: Seq<char>)
    ensures
        stored_map(s).contains_key(k) <==> exists|i: int|
            0 <= i < s.len() && #[trigger] s[i].id@ == k,
    decreases s.len(),
{
    if s.len() > 0 {
        lemma_stored_map_contains(s.drop_last(), k);
        if s.last().id@ == k {
            assert(s[s.len() - 1].id@ == k);
        } else if stored_map(s).contains_key(k) {
            let i = choose|i: int| 0 <= i < s.drop_last().len() && #[trigger] s.drop_last()[i].id@
                == k;
            assert(s[i].id@ == k);
        } else if exists|i: int| 0 <= i < s.len() && #[trigger] s[i].id@ == k {
            let i = choose|i: int| 0 <= i < s.len() && #[trigger] s[i].id@ == k;
            assert(i < s.len() - 1);
            assert(s.drop_last()[i].id@ == k);
            assert(false);
        }
    }
}

/// With distinct identifiers, each snapshot is stored under its own key.
proof fn lemma_stored_map_index(s: Seq<Todo>, i: int)
    requires
        distinct_ids(s),
        0 <= i < s.len(),
    ensures
        stored_map(s).contains_key(s[i].id@),
        stored_map(s)[s[i].id@] == s[i]@,
    decreases s.len(),
{
    lemma_distinct_drop_last(s);
    if i < s.len() - 1 {
        lemma_stored_map_index(s.drop_last(), i);
        assert(s.drop_last()[i] == s[i]);
        assert(s[i].id@ != s.last().id@);
    }
}

/// With distinct identifiers, the store holds exactly one entry per
/// snapshot.
proof fn lemma_stored_map_len(s: Seq<Todo>)
    requires
        distinct_ids(s),
    ensures
        stored_map(s).dom().finite(),
        stored_map(s).len() == s.len(),
    decreases s.len(),
{
    if s.len() > 0 {
        lemma_distinct_drop_last(s);
        lemma_stored_map_len(s.drop_last());
        lemma_stored_map_contains(s.drop_last(), s.last().id@);
        assert forall|i: int| 0 <= i < s.drop_last().len() implies s.drop_last()[i].id@ != s.last().id@ by {
            assert(s.drop_last()[i] == s[i]);
            assert(s[i].id@ != s[s.len() - 1].id@);
        }
        assert(!stored_map(s.drop_last()).contains_key(s.last().id@));
    }
}

/// Removing a snapshot removes exactly its entry from the store.
proof fn lemma_stored_map_remove(s: Seq<Todo>, i: int)
    requires
        distinct_ids(s),
        0 <= i < s.len(),
    ensures
        stored_map(s.remove(i)) == stored_map(s).remove(s[i].id@),
    decreases s.len(),
{
    s.remove_ensures(i);
    lemma_distinct_drop_last(s);
    if i == s.len() - 1 {
        assert(s.remove(i) =~= s.drop_last());
        lemma_stored_map_contains(s.drop_last(), s.last().id@);
        assert forall|j: int| 0 <= j < s.drop_last().len() implies s.drop_last()[j].id@ != s.last().id@ by {
            assert(s.drop_last()[j] == s[j]);
        }
        assert(!stored_map(s.drop_last()).contains_key(s.last().id@));
        assert(stored_map(s).remove(s[i].id@) =~= stored_map(s.drop_last()));
    } else {
        let s2 = s.remove(i);
        assert(s2.len() == s.len() - 1);
        assert(s2.last() == s[s.len() - 1]);
        assert(s2.drop_last() =~= s.drop_last().remove(i)) by {
            s.drop_last().remove_ensures(i);
        }
        lemma_stored_map_remove(s.drop_last(), i);
        assert(s.drop_last()[i] == s[i]);
        assert(s[i].id@ != s.last().id@);
        assert(stored_map(s2) == stored_map(s.drop_last()).remove(s[i].id@).insert(
            s.last().id@,
            s.last()@,
        ));
        assert(stored_map(s.drop_last()).remove(s[i].id@).insert(s.last().id@, s.last()@)
            =~= stored_map(s.drop_last()).insert(s.last().id@, s.last()@).remove(s[i].id@));
    }
}

/// Law: after a save, a lookup of the saved identifier returns a value
/// equal in all fields to the saved todo.  `save` ensures the store is
/// `old(self)@.insert(todo.id@, todo@)` and `find_by_id` returns the
/// entry of the store, so the round trip follows for every starting
/// store.
pub proof fn lemma_save_find_round_trip(store: Map<Seq<char>, TodoModel>, t: TodoModel)
    ensures
        store.insert(t.id, t).contains_key(t.id),
        store.insert(t.id, t)[t.id] == t,
{
}

/// Law: after a delete, a lookup of the deleted identifier finds
/// nothing; and deleting an identifier that is absent leaves the store
/// unchanged, so it succeeds without effect.
pub proof fn lemma_delete_then_find(store: Map<Seq<char>, TodoModel>, id: Seq<char>)
    ensures
        !store.remove(id).contains_key(id),
        !store.contains_key(id) ==> store.remove(id) == store,
{
    if !store.contains_key(id) {
        assert(store.remove(id) =~= store);
    }
}

/// Law: saving a todo under a fresh identifier grows the count of
/// stored todos by exactly one, and an overwrite leaves it unchanged;
/// with `find_all` returning one copy per entry, saving todos with
/// distinct fresh identifiers into a store yields exactly that many
/// items.
pub proof fn lemma_save_count(store: Map<Seq<char>, TodoModel>, t: TodoModel)
    requires
        store.dom().finite(),
    ensures
        !store.contains_key(t.id) ==> store.insert(t.id, t).len() == store.len() + 1,
        store.contains_key(t.id) ==> store.insert(t.id, t).len() == store.len(),
{
    assert(store.insert(t.id, t).dom() =~= store.dom().insert(t.id));
}

/// The store that a run of `save` calls leaves behind: saving the given
/// snapshots, in order, into an empty repository.  Each step is exactly
/// `save`'s `ensures`, so after `new()` and those saves the repository's
/// view equals this map.
pub open spec fn store_after_saves(ts: Seq<TodoModel>) -> Map<Seq<char>, TodoModel>
    decreases ts.len(),
{
    if ts.len() == 0 {
        Map::empty()
    } else {
        store_after_saves(ts.drop_last()).insert(ts.last().id, ts.last())
    }
}

/// Law: after saving todos with pairwise distinct identifiers into a
/// new repository, the store holds exactly one entry per saved todo —
/// each under its own identifier, and nothing else.  With `find_all`
/// returning one copy per stored entry, a listing then holds exactly as
/// many items as were saved, each saved todo appearing exactly once.
pub proof fn lemma_distinct_saves_store_all(ts: Seq<TodoModel>)
    requires
        forall|i: int, j: int| 0 <= i < j < ts.len() ==> ts[i].id != ts[j].id,
    ensures
        store_after_saves(ts).dom().finite(),
        store_after_saves(ts).len() == ts.len(),
        forall|i: int|
            0 <= i < ts.len() ==> store_after_saves(ts).contains_key(#[trigger] ts[i].id)
                && store_after_saves(ts)[ts[i].id] == ts[i],
        forall|k: Seq<char>| #[trigger]
            store_after_saves(ts).contains_key(k) ==> exists|i: int|
                0 <= i < ts.len() && #[trigger] ts[i].id == k,
    decreases ts.len(),
{
    if ts.len() > 0 {
        let prefix = ts.drop_last();
        let last = ts.last();
        assert forall|i: int, j: int| 0 <= i < j < prefix.len() implies prefix[i].id
            != prefix[j].id by {
            assert(prefix[i] == ts[i]);
            assert(prefix[j] == ts[j]);
        }
        lemma_distinct_saves_store_all(prefix);
        assert forall|i: int| 0 <= i < prefix.len() implies prefix[i].id != last.id by {
            assert(prefix[i] == ts[i]);
            assert(ts[i].id != ts[ts.len() - 1].id);
        }
        assert(!store_after_saves(prefix).contains_key(last.id));
        assert(store_after_saves(ts).dom() =~= store_after_saves(prefix).dom().insert(last.id));
        assert forall|i: int| 0 <= i < ts.len() implies store_after_saves(ts).contains_key(
            #[trigger] ts[i].id,
        ) && store_after_saves(ts)[ts[i].id] == ts[i] by {
            if i < ts.len() - 1 {
                assert(prefix[i] == ts[i]);
            }
        }
        assert forall|k: Seq<char>| #[trigger]
            store_after_saves(ts).contains_key(k) implies exists|i: int|
            0 <= i < ts.len() && #[trigger] ts[i].id == k by {
            if k == last.id {
                assert(ts[ts.len() - 1].id == k);
            } else {
                let i = choose|i: int| 0 <= i < prefix.len() && #[trigger] prefix[i].id == k;
                assert(ts[i].id == k);
            }
        }
    }
}

/// Copies a snapshot field by field; the copy equals the original.
fn snapshot(todo: &Todo) -> (r: Todo)
    ensures
        r == *todo,
{
    Todo {
        id: todo.id.clone(),
        created_at: todo.created_at,
        description: todo.description.clone(),
        state: todo.state,
    }
}

/// Scans for the snapshot stored under the given identifier.
fn index_of_id(todos: &Vec<Todo>, id: &String) -> (r: Option<usize>)
    ensures
        r matches Some(i) ==> i < todos@.len() && todos@[i as int].id@ == id@,
        r is None ==> forall|j: int| 0 <= j < todos@.len() ==> todos@[j].id@ != id@,
{
    let n = todos.len();
    let mut i: usize = 0;
    while i < n
        invariant
            n == todos@.len(),
            i <= n,
            forall|j: int| 0 <= j < i ==> todos@[j].id@ != id@,
        decreases n - i,
    {
        if todos[i].id == *id {
            return Some(i);
        }
        i += 1;
    }
    None
}

impl InMemoryTodoRepository {
    #[verifier::type_invariant]
    spec fn inv(self) -> bool {
        distinct_ids(self.todos@)
    }

    /// Creates a new, empty in-memory repository.
    pub fn new() -> (r: Self)
        ensures
            r@ == Map::<Seq<char>, TodoModel>::empty(),
    {
        InMemoryTodoRepository { todos: Vec::new() }
    }
}

impl Default for InMemoryTodoRepository {
    /// An empty repository.
    fn default() -> (r: Self)
        ensures
            r@ == Map::<Seq<char>, TodoModel>::empty(),
    {
        InMemoryTodoRepository::new()
    }
}

impl TodoRepository for InMemoryTodoRepository {
    /// Upsert: the store afterwards maps the todo's identifier to its
    /// snapshot and is otherwise unchanged.  Never fails.
    fn save(&mut self, todo: &Todo) -> (r: Result<(), TodoError>)
        ensures
            r is Ok,
            final(self)@ == old(self)@.insert(todo.id@, todo@),
    {
        proof {
            use_type_invariant(&*self);
        }
        let ghost s0 = self.todos@;
        let copy = snapshot(todo);
        let mut todos: Vec<Todo> = Vec::new();
        core::mem::swap(&mut todos, &mut self.todos);
        match index_of_id(&todos, &todo.id) {
            Some(i) => {
                proof {
                    lemma_stored_map_remove(s0, i as int);
                    s0.remove_ensures(i as int);
                }
                todos.remove(i);
                todos.push(copy);
                proof {
                    let s1 = s0.remove(i as int);
                    assert forall|p: int, q: int| 0 <= p < q < s1.push(copy).len() implies s1.push(
                        copy,
                    )[p].id@ != s1.push(copy)[q].id@ by {
                        if q < s1.len() {
                            assert(s1.push(copy)[p] == s1[p]);
                            assert(s1.push(copy)[q] == s1[q]);
                        } else {
                            assert(s1.push(copy)[q] == copy);
                            assert(s1.push(copy)[p] == s1[p]);
                            if p < i {
                                assert(s1[p] == s0[p]);
                                assert(s0[p].id@ != s0[i as int].id@);
                            } else {
                                assert(s1[p] == s0[p + 1]);
                                assert(s0[p + 1].id@ != s0[i as int].id@);
                            }
                        }
                    }
                    assert(s1.push(copy).drop_last() =~= s1);
                    assert(stored_map(s1.push(copy)) == stored_map(s1).insert(copy.id@, copy@));
                    assert(stored_map(s0).remove(s0[i as int].id@).insert(copy.id@, copy@)
                        =~= stored_map(s0).insert(copy.id@, copy@));
                }
                self.todos = todos;
            },
            None => {
                todos.push(copy);
                proof {
                    assert forall|p: int, q: int| 0 <= p < q < s0.push(copy).len() implies s0.push(
                        copy,
                    )[p].id@ != s0.push(copy)[q].id@ by {
                        if q < s0.len() {
                            assert(s0.push(copy)[p] == s0[p]);
                            assert(s0.push(copy)[q] == s0[q]);
                        } else {
                            assert(s0.push(copy)[q] == copy);
                            assert(s0.push(copy)[p] == s0[p]);
                        }
                    }
                    assert(s0.push(copy).drop_last() =~= s0);
                    assert(stored_map(s0.push(copy)) == stored_map(s0).insert(copy.id@, copy@));
                }
                self.todos = todos;
            },
        }
        Ok(())
    }

    /// Lookup: returns a copy of the stored snapshot exactly when the
    /// identifier is stored.  Never fails.
    fn find_by_id(&self, id: &str) -> (r: Result<Option<Todo>, TodoError>)
        ensures
            r is Ok,
            r matches Ok(o) ==> (o is Some <==> self@.contains_key(id@)),
            r matches Ok(Some(t)) ==> t@ == self@[id@] && t.id@ == id@,
    {
        proof {
            use_type_invariant(&*self);
        }
        let id_key = id.to_owned();
        proof {
            lemma_stored_map_contains(self.todos@, id@);
        }
        match index_of_id(&self.todos, &id_key) {
            Some(i) => {
                proof {
                    lemma_stored_map_index(self.todos@, i as int);
                }
                Ok(Some(snapshot(&self.todos[i])))
            },
            None => Ok(None),
        }
    }

    /// Listing: returns one copy per stored snapshot, each stored under
    /// its own identifier, in unspecified order.  Never fails.
    fn find_all(&self) -> (r: Result<Vec<Todo>, TodoError>)
        ensures
            r is Ok,
            r matches Ok(todos) ==> {
                &&& todos@.len() == self@.len()
                &&& forall|i: int|
                    0 <= i < todos@.len() ==> self@.contains_key(#[trigger] todos@[i].id@)
                        && todos@[i]@ == self@[todos@[i].id@]
                &&& forall|i: int, j: int|
                    0 <= i < j < todos@.len() ==> todos@[i].id@ != todos@[j].id@
            },
    {
        proof {
            use_type_invariant(&*self);
            lemma_stored_map_len(self.todos@);
        }
        let n = self.todos.len();
        let mut result: Vec<Todo> = Vec::new();
        let mut i: usize = 0;
        while i < n
            invariant
                n == self.todos@.len(),
                i <= n,
                distinct_ids(self.todos@),
                result@.len() == i,
                forall|j: int| 0 <= j < i ==> result@[j] == self.todos@[j],
            decreases n - i,
        {
            result.push(snapshot(&self.todos[i]));
            i += 1;
        }
        proof {
            assert forall|j: int| 0 <= j < result@.len() implies self@.contains_key(
                #[trigger] result@[j].id@,
            ) && result@[j]@ == self@[result@[j].id@] by {
                lemma_stored_map_index(self.todos@, j);
            }
        }
        Ok(result)
    }

    /// Removal: the store afterwards has no entry for the identifier and
    /// is otherwise unchanged; removing an absent identifier succeeds
    /// silently.  Never fails.
    fn delete(&mut self, id: &str) -> (r: Result<(), TodoError>)
        ensures
            r is Ok,
            final(self)@ == old(self)@.remove(id@),
    {
        proof {
            use_type_invariant(&*self);
        }
        let ghost s0 = self.todos@;
        let id_key = id.to_owned();
        let mut todos: Vec<Todo> = Vec::new();
        core::mem::swap(&mut todos, &mut self.todos);
        match index_of_id(&todos, &id_key) {
            Some(i) => {
                proof {
                    lemma_stored_map_remove(s0, i as int);
                    s0.remove_ensures(i as int);
                }
                todos.remove(i);
                proof {
                    let s1 = s0.remove(i as int);
                    assert forall|p: int, q: int| 0 <= p < q < s1.len() implies s1[p].id@
                        != s1[q].id@ by {
                        assert(s1[p] == if p < i { s0[p] } else { s0[p + 1] });
                        assert(s1[q] == if q < i { s0[q] } else { s0[q + 1] });
                    }
                }
                self.todos = todos;
            },
            None => {
                proof {
                    lemma_stored_map_contains(s0, id@);
                    assert(!stored_map(s0).contains_key(id@));
                    assert(stored_map(s0).remove(id@) =~= stored_map(s0));
                }
                self.todos = todos;
            },
        }
        Ok(())
    }
}

} // verus!
