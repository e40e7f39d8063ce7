use crate::model::todo::{TodoView, UpdateTodoView};
use vstd::prelude::*;

verus! {

/// The item that a creation with identity `id` and text `text` makes.
pub open spec fn created(id: Seq<char>, text: Seq<char>) -> TodoView {
    TodoView { id, todo_text: text, completed: false }
}

/// The item that `patch` turns `todo` into: each field that the patch holds
/// replaces the item's, the others and the identity stay.
pub open spec fn patched(todo: TodoView, patch: UpdateTodoView) -> TodoView {
    TodoView {
        id: todo.id,
        todo_text: match patch.todo_text {
            Some(text) => text,
            None => todo.todo_text,
        },
        completed: match patch.completed {
            Some(completed) => completed,
            None => todo.completed,
        },
    }
}

/// Whether every item of `store` sits under its own identity.
pub open spec fn keyed_by_id(store: Map<Seq<char>, TodoView>) -> bool {
    forall|id: Seq<char>| #[trigger] store.contains_key(id) ==> store[id].id == id
}

/// Whether `items` lists `store`: every item of the store once, under its
/// identity, in any order, and nothing else.
pub open spec fn is_listing(items: Seq<TodoView>, store: Map<Seq<char>, TodoView>) -> bool {
    &&& forall|i: int|
        0 <= i < items.len() ==> store.contains_key((#[trigger] items[i]).id) && store[items[i].id]
            == items[i]
    &&& forall|i: int, j: int|
        0 <= i < j < items.len() ==> (#[trigger] items[i]).id != (#[trigger] items[j]).id
    &&& forall|id: Seq<char>| #[trigger]
        store.contains_key(id) ==> exists|i: int|
            0 <= i < items.len() && (#[trigger] items[i]).id == id
}

/// What a command asks for, without its reply slot.
pub ghost enum Request {
    Create(Seq<char>),
    Read,
    Update(Seq<char>, UpdateTodoView),
    Delete(Seq<char>),
}

/// What the store answers: an item, a snapshot of the whole collection,
/// success without a payload, or that the target does not exist.
pub ghost enum Outcome {
    Item(TodoView),
    Snapshot(Map<Seq<char>, TodoView>),
    NoContents,
    NotFound,
}

/// The store after `patch` was applied to the item under `id`: unchanged if
/// there is no such item.
pub open spec fn updated(
    store: Map<Seq<char>, TodoView>,
    id: Seq<char>,
    patch: UpdateTodoView,
) -> Map<Seq<char>, TodoView> {
    if store.contains_key(id) {
        store.insert(id, patched(store[id], patch))
    } else {
        store
    }
}

/// The answer to an update of the item under `id`.
pub open spec fn update_outcome(
    store: Map<Seq<char>, TodoView>,
    id: Seq<char>,
    patch: UpdateTodoView,
) -> Outcome {
    if store.contains_key(id) {
        Outcome::Item(patched(store[id], patch))
    } else {
        Outcome::NotFound
    }
}

/// The answer to a deletion of the item under `id`.
pub open spec fn delete_outcome(store: Map<Seq<char>, TodoView>, id: Seq<char>) -> Outcome {
    if store.contains_key(id) {
        Outcome::NoContents
    } else {
        Outcome::NotFound
    }
}

/// The store after `request` was applied, where `fresh` is the identity
/// drawn for a creation.
pub open spec fn next_state(
    store: Map<Seq<char>, TodoView>,
    request: Request,
    fresh: Seq<char>,
) -> Map<Seq<char>, TodoView> {
    match request {
        Request::Create(text) => store.insert(fresh, created(fresh, text)),
        Request::Read => store,
        Request::Update(id, patch) => updated(store, id, patch),
        Request::Delete(id) => store.remove(id),
    }
}

/// The answer to `request` on `store`, where `fresh` is the identity drawn
/// for a creation.
pub open spec fn outcome(
    store: Map<Seq<char>, TodoView>,
    request: Request,
    fresh: Seq<char>,
) -> Outcome {
    match request {
        Request::Create(text) => Outcome::Item(created(fresh, text)),
        Request::Read => Outcome::Snapshot(store),
        Request::Update(id, patch) => update_outcome(store, id, patch),
        Request::Delete(id) => delete_outcome(store, id),
    }
}

/// The store after `requests` were applied front to back, the i-th of them
/// with `fresh[i]` as the identity drawn while it was applied.
pub open spec fn run(
    store: Map<Seq<char>, TodoView>,
    requests: Seq<Request>,
    fresh: Seq<Seq<char>>,
) -> Map<Seq<char>, TodoView>
    recommends
        requests.len() == fresh.len(),
    decreases requests.len(),
{
    if requests.len() == 0 {
        store
    } else {
        next_state(
            run(store, requests.drop_last(), fresh.drop_last()),
            requests.last(),
            fresh.last(),
        )
    }
}

/// The answer to the i-th of `requests` when they are applied front to back.
pub open spec fn outcome_at(
    store: Map<Seq<char>, TodoView>,
    requests: Seq<Request>,
    fresh: Seq<Seq<char>>,
    i: int,
) -> Outcome
    recommends
        requests.len() == fresh.len(),
        0 <= i < requests.len(),
{
    outcome(run(store, requests.take(i), fresh.take(i)), requests[i], fresh[i])
}

/// The creations of `texts`, in order.
pub open spec fn creations(texts: Seq<Seq<char>>) -> Seq<Request> {
    Seq::new(texts.len(), |i: int| Request::Create(texts[i]))
}

/// One step keeps every item under its own identity and the collection
/// finite.
pub proof fn lemma_step_keeps_shape(
    store: Map<Seq<char>, TodoView>,
    request: Request,
    fresh: Seq<char>,
)
    requires
        keyed_by_id(store),
        store.dom().finite(),
    ensures
        keyed_by_id(next_state(store, request, fresh)),
        next_state(store, request, fresh).dom().finite(),
{
}

/// Commands are applied in the order of submission: running a queue that
/// was filled in two parts is running the first part and then the second.
pub proof fn lemma_run_in_order(
    store: Map<Seq<char>, TodoView>,
    first: Seq<Request>,
    first_fresh: Seq<Seq<char>>,
    second: Seq<Request>,
    second_fresh: Seq<Seq<char>>,
)
    requires
        first.len() == first_fresh.len(),
        second.len() == second_fresh.len(),
    ensures
        run(store, first + second, first_fresh + second_fresh) == run(
            run(store, first, first_fresh),
            second,
            second_fresh,
        ),
    decreases second.len(),
{
    if second.len() == 0 {
        assert(first + second =~= first);
        assert(first_fresh + second_fresh =~= first_fresh);
    } else {
        lemma_run_in_order(
            store,
            first,
            first_fresh,
            second.drop_last(),
            second_fresh.drop_last(),
        );
        assert((first + second).drop_last() =~= first + second.drop_last());
        assert((first_fresh + second_fresh).drop_last() =~= first_fresh
            + second_fresh.drop_last());
    }
}

/// An answer is settled by the commands submitted before it: whatever is
/// submitted later changes neither the answer nor the state it was given on.
pub proof fn lemma_later_commands_do_not_matter(
    store: Map<Seq<char>, TodoView>,
    requests: Seq<Request>,
    fresh: Seq<Seq<char>>,
    later: Seq<Request>,
    later_fresh: Seq<Seq<char>>,
    i: int,
)
    requires
        requests.len() == fresh.len(),
        0 <= i < requests.len(),
    ensures
        outcome_at(store, requests + later, fresh + later_fresh, i) == outcome_at(
            store,
            requests,
            fresh,
            i,
        ),
{
    assert((requests + later).take(i) =~= requests.take(i));
    assert((fresh + later_fresh).take(i) =~= fresh.take(i));
}

/// Every reachable state keeps each item under its own identity, so a
/// listing never shows one identity twice, and is finite.
pub proof fn lemma_run_keeps_shape(requests: Seq<Request>, fresh: Seq<Seq<char>>)
    requires
        requests.len() == fresh.len(),
    ensures
        keyed_by_id(run(Map::empty(), requests, fresh)),
        run(Map::empty(), requests, fresh).dom().finite(),
    decreases requests.len(),
{
    if requests.len() > 0 {
        lemma_run_keeps_shape(requests.drop_last(), fresh.drop_last());
        lemma_step_keeps_shape(
            run(Map::empty(), requests.drop_last(), fresh.drop_last()),
            requests.last(),
            fresh.last(),
        );
    }
}

/// Identities are unique. When the identities drawn for N creations differ
/// from one another, each created item is in the store afterwards under its
/// own identity, so the N items carry N pairwise distinct identities and no
/// creation has displaced another.
pub proof fn lemma_created_identities_distinct(
    store: Map<Seq<char>, TodoView>,
    texts: Seq<Seq<char>>,
    fresh: Seq<Seq<char>>,
)
    requires
        texts.len() == fresh.len(),
        forall|i: int, j: int| 0 <= i < j < fresh.len() ==> fresh[i] != fresh[j],
    ensures
        forall|i: int|
            0 <= i < texts.len() ==> outcome_at(store, creations(texts), fresh, i) == Outcome::Item(
                created(#[trigger] fresh[i], texts[i]),
            ),
        forall|i: int|
            0 <= i < texts.len() ==> run(store, creations(texts), fresh).contains_key(
                #[trigger] fresh[i],
            ) && run(store, creations(texts), fresh)[fresh[i]] == created(fresh[i], texts[i]),
        forall|i: int, j: int|
            0 <= i < j < texts.len() ==> created(fresh[i], texts[i]).id != created(
                fresh[j],
                texts[j],
            ).id,
        run(store, creations(texts), fresh).dom() == store.dom().union(fresh.to_set()),
    decreases texts.len(),
{
    let end = run(store, creations(texts), fresh);
    if texts.len() == 0 {
        assert(end.dom() =~= store.dom().union(fresh.to_set()));
    } else {
        let n = texts.len() - 1;
        assert(creations(texts).drop_last() =~= creations(texts.drop_last()));
        lemma_created_identities_distinct(store, texts.drop_last(), fresh.drop_last());
        let before = run(store, creations(texts.drop_last()), fresh.drop_last());
        assert(end == before.insert(fresh[n], created(fresh[n], texts[n])));
        assert forall|i: int| 0 <= i < texts.len() implies end.contains_key(#[trigger] fresh[i])
            && end[fresh[i]] == created(fresh[i], texts[i]) by {
            if i < n {
                assert(fresh.drop_last()[i] == fresh[i]);
                assert(texts.drop_last()[i] == texts[i]);
                assert(fresh[i] != fresh[n]);
            }
        }
        assert(end.dom() =~= store.dom().union(fresh.to_set())) by {
            assert forall|id: Seq<char>|
                fresh.to_set().contains(id) <==> (fresh.drop_last().to_set().contains(id) || id
                    == fresh[n]) by {
                if fresh.to_set().contains(id) {
                    let k = choose|k: int| 0 <= k < fresh.len() && fresh[k] == id;
                    if k < n {
                        assert(fresh.drop_last()[k] == id);
                    }
                }
                if fresh.drop_last().to_set().contains(id) {
                    let k = choose|k: int|
                        0 <= k < fresh.drop_last().len() && fresh.drop_last()[k] == id;
                    assert(fresh[k] == id);
                }
            }
        }
    }
}

/// Reading after two creations on an empty store shows exactly the two
/// created items.
pub proof fn lemma_read_after_two_creations(
    first_text: Seq<char>,
    first_id: Seq<char>,
    second_text: Seq<char>,
    second_id: Seq<char>,
    read_fresh: Seq<char>,
)
    requires
        first_id != second_id,
    ensures
        outcome_at(
            Map::empty(),
            seq![Request::Create(first_text), Request::Create(second_text), Request::Read],
            seq![first_id, second_id, read_fresh],
            2,
        ) == Outcome::Snapshot(
            map![
                first_id => created(first_id, first_text),
                second_id => created(second_id, second_text)
            ],
        ),
{
    let requests = seq![Request::Create(first_text), Request::Create(second_text), Request::Read];
    let fresh = seq![first_id, second_id, read_fresh];
    let two = requests.take(2);
    let ids = fresh.take(2);
    assert(two.drop_last().drop_last() =~= Seq::<Request>::empty());
    assert(two.drop_last().last() == Request::Create(first_text));
    assert(ids.drop_last().last() == first_id);
    reveal_with_fuel(run, 3);
    assert(run(Map::empty(), two, ids) =~= map![
        first_id => created(first_id, first_text),
        second_id => created(second_id, second_text)
    ]);
}

/// An update that holds only a text sets the text and leaves the rest; an
/// update that holds nothing succeeds and leaves the item and the store as
/// they were.
pub proof fn lemma_update_is_partial(
    store: Map<Seq<char>, TodoView>,
    id: Seq<char>,
    text: Seq<char>,
)
    requires
        store.contains_key(id),
    ensures
        update_outcome(
            store,
            id,
            UpdateTodoView { target_id: id, todo_text: Some(text), completed: None },
        ) == Outcome::Item(
            TodoView { id: store[id].id, todo_text: text, completed: store[id].completed },
        ),
        update_outcome(
            store,
            id,
            UpdateTodoView { target_id: id, todo_text: None, completed: None },
        ) == Outcome::Item(store[id]),
        updated(store, id, UpdateTodoView { target_id: id, todo_text: None, completed: None })
            == store,
{
    let nothing = UpdateTodoView { target_id: id, todo_text: None, completed: None };
    assert(patched(store[id], nothing) == store[id]);
    assert(updated(store, id, nothing) =~= store);
}

/// An identity that no creation has drawn is never in the store: updating
/// or deleting it answers `NotFound` and changes nothing.
pub proof fn lemma_never_created_is_not_found(
    requests: Seq<Request>,
    fresh: Seq<Seq<char>>,
    id: Seq<char>,
    patch: UpdateTodoView,
)
    requires
        requests.len() == fresh.len(),
        forall|i: int|
            0 <= i < requests.len() && (#[trigger] requests[i]) is Create ==> fresh[i] != id,
    ensures
        !run(Map::empty(), requests, fresh).contains_key(id),
        update_outcome(run(Map::empty(), requests, fresh), id, patch) == Outcome::NotFound,
        delete_outcome(run(Map::empty(), requests, fresh), id) == Outcome::NotFound,
        updated(run(Map::empty(), requests, fresh), id, patch) == run(
            Map::empty(),
            requests,
            fresh,
        ),
        run(Map::empty(), requests, fresh).remove(id) == run(Map::empty(), requests, fresh),
    decreases requests.len(),
{
    let end = run(Map::empty(), requests, fresh);
    if requests.len() > 0 {
        assert forall|i: int|
            0 <= i < requests.drop_last().len() && (#[trigger] requests.drop_last()[i])
                is Create implies fresh.drop_last()[i] != id by {
            assert(requests.drop_last()[i] == requests[i]);
        }
        lemma_never_created_is_not_found(requests.drop_last(), fresh.drop_last(), id, patch);
        assert(requests.last() == requests[requests.len() - 1]);
    }
    assert(end.remove(id) =~= end);
}

/// Deleting an item that is there answers `NoContents`; deleting it again
/// answers `NotFound` and changes nothing.
pub proof fn lemma_delete_twice(store: Map<Seq<char>, TodoView>, id: Seq<char>, fresh: Seq<char>)
    requires
        store.contains_key(id),
    ensures
        outcome(store, Request::Delete(id), fresh) == Outcome::NoContents,
        outcome(next_state(store, Request::Delete(id), fresh), Request::Delete(id), fresh)
            == Outcome::NotFound,
        next_state(next_state(store, Request::Delete(id), fresh), Request::Delete(id), fresh)
            == next_state(store, Request::Delete(id), fresh),
{
    assert(store.remove(id).remove(id) =~= store.remove(id));
}

} // verus!
