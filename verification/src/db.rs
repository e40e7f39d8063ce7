use crate::model::todo::{is_uuid_v4_text, views, CreateTodo, Todo, TodoView, UpdateTodo};
use crate::semantics::{
    created, delete_outcome, is_listing, keyed_by_id, next_state, outcome, patched,
    update_outcome, updated, Outcome, Request,
};
use crate::util::text::str_eq;
use tokio::sync::oneshot;
use vstd::prelude::*;

verus! {

/// The number of commands that the queue in front of the store holds before
/// a producer has to wait.
pub const QUEUE_CAPACITY: usize = 128;

/// The typed result of applying a command.
#[derive(Debug)]
pub enum ResponseMessage<B> {
    /// Success with a payload.
    Contents(B),
    /// Success without a payload.
    NoContents,
    /// The target of the command does not exist.
    NotFound,
}

/// The answer that a reply with an item payload conveys.
pub open spec fn item_outcome(reply: ResponseMessage<Todo>) -> Outcome {
    match reply {
        ResponseMessage::Contents(todo) => Outcome::Item(todo@),
        ResponseMessage::NoContents => Outcome::NoContents,
        ResponseMessage::NotFound => Outcome::NotFound,
    }
}

/// A request to the store, paired with the slot that takes its reply.
#[derive(Debug)]
pub enum Cmd {
    /// Create an item from the payload.
    Create(CreateTodo, oneshot::Sender<ResponseMessage<Todo>>),
    /// List every item.
    Read(oneshot::Sender<ResponseMessage<Vec<Todo>>>),
    /// Apply the payload to the item with the given identity.
    Update(String, UpdateTodo, oneshot::Sender<ResponseMessage<Todo>>),
    /// Remove the item with the given identity.
    Delete(String, oneshot::Sender<ResponseMessage<Todo>>),
}

impl View for Cmd {
    type V = Request;

    open spec fn view(&self) -> Request {
        match self {
            Cmd::Create(payload, _) => Request::Create(payload@),
            Cmd::Read(_) => Request::Read,
            Cmd::Update(id, patch, _) => Request::Update(id@, patch@),
            Cmd::Delete(id, _) => Request::Delete(id@),
        }
    }
}

/// A reply on its way: the slot of the command that it answers, and the
/// message for it.
#[derive(Debug)]
pub enum Delivery {
    /// The reply to a creation, an update or a deletion.
    Item(oneshot::Sender<ResponseMessage<Todo>>, ResponseMessage<Todo>),
    /// The reply to a listing.
    List(oneshot::Sender<ResponseMessage<Vec<Todo>>>, ResponseMessage<Vec<Todo>>),
}

impl Delivery {
    /// Whether the slot is the one that `msg` came with.
    pub open spec fn answers(self, msg: Cmd) -> bool {
        match (msg, self) {
            (Cmd::Create(_, slot), Delivery::Item(sender, _)) => sender == slot,
            (Cmd::Read(slot), Delivery::List(sender, _)) => sender == slot,
            (Cmd::Update(_, _, slot), Delivery::Item(sender, _)) => sender == slot,
            (Cmd::Delete(_, slot), Delivery::Item(sender, _)) => sender == slot,
            _ => false,
        }
    }

    /// Whether the message conveys `outcome`: the same item, the same kind of
    /// answer without a payload, or a listing of the same snapshot.
    pub open spec fn conveys(self, outcome: Outcome) -> bool {
        match self {
            Delivery::Item(_, reply) => item_outcome(reply) == outcome,
            Delivery::List(_, reply) => reply matches ResponseMessage::Contents(todos)
                && outcome matches Outcome::Snapshot(store) && is_listing(views(todos@), store),
        }
    }

    /// Puts the message into its slot, which is used up by that. Returns
    /// whether the slot accepted it; it does not if the producer has given
    /// up waiting.
    fn send(self) -> (delivered: bool) {
        match self {
            Delivery::Item(sender, message) => send_message_to_handler(sender, message),
            Delivery::List(sender, message) => send_message_to_handler(sender, message),
        }
    }
}

/// The sending half of tokio's one-shot channel: the reply slot of a command.
/// Opaque here; it is only carried from the command to the call that fills it.
#[verifier::external_type_specification]
#[verifier::external_body]
#[verifier::reject_recursive_types(T)]
pub struct ExOneshotSender<T>(oneshot::Sender<T>);

/// The receiving half of tokio's one-shot channel, on which the producer of
/// a command awaits its reply. Opaque here.
#[verifier::external_type_specification]
#[verifier::external_body]
#[verifier::reject_recursive_types(T)]
pub struct ExOneshotReceiver<T>(oneshot::Receiver<T>);

/// What awaiting a receiver yields when its slot was dropped unfilled.
/// Declared because the receiver's `Future` impl names it; opaque here.
#[verifier::external_type_specification]
#[verifier::external_body]
pub struct ExRecvError(oneshot::error::RecvError);

/// Calls `tokio::sync::oneshot::channel`, which makes a new channel and
/// returns its two halves. Trusted, with nothing claimed: the halves are
/// opaque.
#[verifier::external_body]
pub(crate) fn reply_slot<T>() -> (halves: (oneshot::Sender<T>, oneshot::Receiver<T>)) {
    oneshot::channel()
}

/// Calls `tokio::sync::oneshot::Sender::send`, which consumes the slot, and
/// reports whether the message was accepted. Trusted, with nothing claimed:
/// the call fails exactly when the receiving half is already gone, which the
/// arguments do not decide.
#[verifier::external_body]
fn send_message_to_handler<T>(
    sender: oneshot::Sender<ResponseMessage<T>>,
    message: ResponseMessage<T>,
) -> (delivered: bool) {
    sender.send(message).is_ok()
}

/// Whether no two items of the pool share an identity.
spec fn distinct_ids(pool: Seq<Todo>) -> bool {
    forall|i: int, j: int|
        0 <= i < j < pool.len() ==> (#[trigger] pool[i])@.id != (#[trigger] pool[j])@.id
}

/// Whether the pool holds an item with identity `id`.
spec fn has_id(pool: Seq<Todo>, id: Seq<char>) -> bool {
    exists|i: int| 0 <= i < pool.len() && (#[trigger] pool[i])@.id == id
}

/// A position at which the pool holds an item with identity `id`, if there
/// is one.
spec fn index_of(pool: Seq<Todo>, id: Seq<char>) -> int {
    choose|i: int| 0 <= i < pool.len() && (#[trigger] pool[i])@.id == id
}

/// The map that the pool stands for: each identity that occurs, with the
/// value of an item that carries it.
spec fn pool_view(pool: Seq<Todo>) -> Map<Seq<char>, TodoView> {
    Map::new(|id: Seq<char>| has_id(pool, id), |id: Seq<char>| pool[index_of(pool, id)]@)
}

/// In a pool without repeated identities, an item is found at its own
/// position and the map holds it under its identity.
proof fn lemma_index_of(pool: Seq<Todo>, i: int)
    requires
        distinct_ids(pool),
        0 <= i < pool.len(),
    ensures
        has_id(pool, pool[i]@.id),
        index_of(pool, pool[i]@.id) == i,
        pool_view(pool).contains_key(pool[i]@.id),
        pool_view(pool)[pool[i]@.id] == pool[i]@,
{
    let j = index_of(pool, pool[i]@.id);
    assert(0 <= j < pool.len() && pool[j]@.id == pool[i]@.id);
}

/// The map of any pool is finite and holds each item under the item's own
/// identity.
proof fn lemma_pool_view_shape(pool: Seq<Todo>)
    ensures
        keyed_by_id(pool_view(pool)),
        pool_view(pool).dom().finite(),
{
    let ids = Seq::new(pool.len(), |i: int| pool[i]@.id);
    assert forall|id: Seq<char>| pool_view(pool).dom().contains(id) implies ids.to_set().contains(
        id,
    ) by {
        let i = index_of(pool, id);
        assert(ids[i] == id);
    }
    vstd::seq_lib::seq_to_set_is_finite(ids);
    vstd::set_lib::lemma_len_subset(pool_view(pool).dom(), ids.to_set());
}

/// Appending an item with a new identity inserts it into the map.
proof fn lemma_push(pool: Seq<Todo>, todo: Todo)
    requires
        distinct_ids(pool),
        !has_id(pool, todo@.id),
    ensures
        distinct_ids(pool.push(todo)),
        pool_view(pool.push(todo)) == pool_view(pool).insert(todo@.id, todo@),
{
    let next = pool.push(todo);
    assert(distinct_ids(next)) by {
        assert forall|i: int, j: int| 0 <= i < j < next.len() implies (#[trigger] next[i])@.id != (
        #[trigger] next[j])@.id by {
            if j == pool.len() {
                assert(pool[i]@.id != todo@.id);
            } else {
                assert(pool[i]@.id != pool[j]@.id);
            }
        }
    }
    assert forall|id: Seq<char>| has_id(next, id) <==> (has_id(pool, id) || id == todo@.id) by {
        if has_id(next, id) {
            let i = index_of(next, id);
            if i < pool.len() {
                assert(pool[i]@.id == id);
            }
        }
        if has_id(pool, id) {
            let i = index_of(pool, id);
            assert(next[i]@.id == id);
        }
        if id == todo@.id {
            assert(next[pool.len() as int]@.id == id);
        }
    }
    assert forall|id: Seq<char>| has_id(next, id) implies #[trigger] pool_view(next)[id]
        == pool_view(pool).insert(todo@.id, todo@)[id] by {
        let i = index_of(next, id);
        lemma_index_of(next, i);
        if i < pool.len() {
            lemma_index_of(pool, i);
        }
    }
    assert(pool_view(next) =~= pool_view(pool).insert(todo@.id, todo@));
}

/// Replacing an item by one with the same identity overwrites its entry in
/// the map.
proof fn lemma_replace(pool: Seq<Todo>, i: int, todo: Todo)
    requires
        distinct_ids(pool),
        0 <= i < pool.len(),
        pool[i]@.id == todo@.id,
    ensures
        distinct_ids(pool.update(i, todo)),
        pool_view(pool.update(i, todo)) == pool_view(pool).insert(todo@.id, todo@),
{
    let next = pool.update(i, todo);
    assert(distinct_ids(next)) by {
        assert forall|a: int, b: int| 0 <= a < b < next.len() implies (#[trigger] next[a])@.id != (
        #[trigger] next[b])@.id by {
            assert(pool[a]@.id != pool[b]@.id);
        }
    }
    assert forall|id: Seq<char>| has_id(next, id) <==> has_id(pool, id) by {
        if has_id(next, id) {
            let k = index_of(next, id);
            assert(pool[k]@.id == id);
        }
        if has_id(pool, id) {
            let k = index_of(pool, id);
            assert(next[k]@.id == id);
        }
    }
    lemma_index_of(pool, i);
    assert forall|id: Seq<char>| has_id(next, id) implies #[trigger] pool_view(next)[id]
        == pool_view(pool).insert(todo@.id, todo@)[id] by {
        let k = index_of(next, id);
        lemma_index_of(next, k);
        lemma_index_of(pool, k);
    }
    assert(pool_view(next) =~= pool_view(pool).insert(todo@.id, todo@));
}

/// Taking an item out of the pool removes its identity from the map.
proof fn lemma_remove(pool: Seq<Todo>, i: int)
    requires
        distinct_ids(pool),
        0 <= i < pool.len(),
    ensures
        distinct_ids(pool.remove(i)),
        pool_view(pool.remove(i)) == pool_view(pool).remove(pool[i]@.id),
{
    let next = pool.remove(i);
    let gone = pool[i]@.id;
    assert forall|k: int| 0 <= k < next.len() implies #[trigger] next[k] == pool[if k < i {
        k
    } else {
        k + 1
    }] by {}
    assert(distinct_ids(next)) by {
        assert forall|a: int, b: int| 0 <= a < b < next.len() implies (#[trigger] next[a])@.id != (
        #[trigger] next[b])@.id by {
            let a0 = if a < i { a } else { a + 1 };
            let b0 = if b < i { b } else { b + 1 };
            assert(pool[a0]@.id != pool[b0]@.id);
        }
    }
    assert forall|id: Seq<char>| has_id(next, id) <==> (has_id(pool, id) && id != gone) by {
        if has_id(next, id) {
            let k = index_of(next, id);
            let k0 = if k < i { k } else { k + 1 };
            assert(pool[k0]@.id == id);
            if k0 < i {
                assert(pool[k0]@.id != pool[i]@.id);
            } else {
                assert(pool[i]@.id != pool[k0]@.id);
            }
        }
        if has_id(pool, id) && id != gone {
            let k = index_of(pool, id);
            let k1 = if k < i { k } else { k - 1 };
            assert(next[k1]@.id == id);
        }
    }
    assert forall|id: Seq<char>| has_id(next, id) implies #[trigger] pool_view(next)[id]
        == pool_view(pool).remove(gone)[id] by {
        let k = index_of(next, id);
        lemma_index_of(next, k);
        lemma_index_of(pool, if k < i { k } else { k + 1 });
    }
    assert(pool_view(next) =~= pool_view(pool).remove(gone));
}

/// The items of a pool without repeated identities list its map.
proof fn lemma_listing(pool: Seq<Todo>)
    requires
        distinct_ids(pool),
    ensures
        is_listing(views(pool), pool_view(pool)),
{
    let items = views(pool);
    assert forall|i: int| 0 <= i < items.len() implies pool_view(pool).contains_key(
        (#[trigger] items[i]).id,
    ) && pool_view(pool)[items[i].id] == items[i] by {
        lemma_index_of(pool, i);
    }
    assert forall|id: Seq<char>| #[trigger] pool_view(pool).contains_key(id) implies exists|i: int|
        0 <= i < items.len() && (#[trigger] items[i]).id == id by {
        let i = index_of(pool, id);
        assert(items[i].id == id);
    }
}

/// The position of the item with identity `id`, if the pool holds one.
fn find(pool: &Vec<Todo>, id: &str) -> (found: Option<usize>)
    ensures
        match found {
            Some(i) => i < pool.len() && pool[i as int]@.id == id@,
            None => !has_id(pool@, id@),
        },
{
    let mut i: usize = 0;
    while i < pool.len()
        invariant
            i <= pool.len(),
            forall|j: int| 0 <= j < i ==> (#[trigger] pool[j])@.id != id@,
        decreases pool.len() - i,
    {
        if str_eq(pool[i].get_id(), id) {
            return Some(i);
        }
        i += 1;
    }
    None
}

/// A copy of every item, in the pool's order.
fn copy_pool(pool: &Vec<Todo>) -> (copy: Vec<Todo>)
    ensures
        copy@ == pool@,
{
    let mut copy: Vec<Todo> = Vec::new();
    let mut i: usize = 0;
    while i < pool.len()
        invariant
            i <= pool.len(),
            copy@ == pool@.subrange(0, i as int),
        decreases pool.len() - i,
    {
        copy.push(pool[i].clone());
        i += 1;
        assert(copy@ =~= pool@.subrange(0, i as int));
    }
    assert(copy@ =~= pool@);
    copy
}

/// The authoritative collection of todo items, keyed by identity.
///
/// Its value is a finite map from identity to item in which every item sits
/// under its own identity.
#[derive(Debug)]
pub struct TodoDb {
    todo_pool: Vec<Todo>,
}

impl View for TodoDb {
    type V = Map<Seq<char>, TodoView>;

    closed spec fn view(&self) -> Map<Seq<char>, TodoView> {
        pool_view(self.todo_pool@)
    }
}

impl Clone for TodoDb {
    /// A collection with a copy of every item.
    fn clone(&self) -> (copy: Self)
        ensures
            copy@ == self@,
    {
        proof {
            use_type_invariant(self);
        }
        TodoDb { todo_pool: copy_pool(&self.todo_pool) }
    }
}

impl TodoDb {
    /// No two items of the pool share an identity.
    #[verifier::type_invariant]
    spec fn well_formed(self) -> bool {
        distinct_ids(self.todo_pool@)
    }

    /// The value of a collection is a finite map that holds every item under
    /// the item's own identity.
    pub proof fn lemma_shape(self)
        ensures
            keyed_by_id(self@),
            self@.dom().finite(),
    {
        lemma_pool_view_shape(self.todo_pool@);
    }

    /// An empty collection.
    pub fn new() -> (db: Self)
        ensures
            db@ == Map::<Seq<char>, TodoView>::empty(),
    {
        let db = TodoDb { todo_pool: Vec::new() };
        assert(db@ =~= Map::<Seq<char>, TodoView>::empty());
        db
    }

    /// Puts `todo` under its identity. An item that was there under the same
    /// identity is replaced. A creation gets here only through
    /// [`TodoDb::insert_todo`], with an identity that was drawn for it.
    pub fn store(&mut self, todo: Todo)
        ensures
            final(self)@ == old(self)@.insert(todo@.id, todo@),
    {
        proof {
            use_type_invariant(&*self);
        }
        let mut pool: Vec<Todo> = Vec::new();
        std::mem::swap(&mut pool, &mut self.todo_pool);
        match find(&pool, todo.get_id()) {
            Some(i) => {
                proof {
                    lemma_replace(pool@, i as int, todo);
                }
                pool.set(i, todo);
            },
            None => {
                proof {
                    lemma_push(pool@, todo);
                }
                pool.push(todo);
            },
        }
        self.todo_pool = pool;
    }

    /// Creates an item from `new_todo` under a freshly drawn identity, stores
    /// it and returns a copy.
    pub fn insert_todo(&mut self, new_todo: CreateTodo) -> (todo: Todo)
        ensures
            is_uuid_v4_text(todo@.id),
            todo@ == created(todo@.id, new_todo@),
            final(self)@ == old(self)@.insert(todo@.id, todo@),
    {
        let todo = Todo::new(new_todo);
        self.store(todo.clone());
        todo
    }

    /// A snapshot copy of every item in the collection.
    pub fn get_all_todo(&self) -> (todos: Vec<Todo>)
        ensures
            is_listing(views(todos@), self@),
    {
        proof {
            use_type_invariant(self);
            lemma_listing(self.todo_pool@);
        }
        copy_pool(&self.todo_pool)
    }

    /// Applies `update_todo` to the item with identity `id` and returns its
    /// new state, or returns `None` and changes nothing if there is no such
    /// item.
    pub fn update_todo(&mut self, id: &str, update_todo: UpdateTodo) -> (updated: Option<Todo>)
        ensures
            match updated {
                Some(todo) => old(self)@.contains_key(id@) && todo@ == patched(
                    old(self)@[id@],
                    update_todo@,
                ) && final(self)@ == old(self)@.insert(id@, todo@),
                None => !old(self)@.contains_key(id@) && final(self)@ == old(self)@,
            },
    {
        proof {
            use_type_invariant(&*self);
        }
        let mut pool: Vec<Todo> = Vec::new();
        std::mem::swap(&mut pool, &mut self.todo_pool);
        let updated = match find(&pool, id) {
            Some(i) => {
                proof {
                    lemma_index_of(pool@, i as int);
                }
                let mut todo = pool[i].clone();
                if let Some(text) = update_todo.get_text() {
                    todo.modify_text(text.as_str());
                }
                if let Some(completed) = update_todo.get_completed() {
                    todo.modify_completed(*completed);
                }
                proof {
                    lemma_replace(pool@, i as int, todo);
                }
                pool.set(i, todo.clone());
                Some(todo)
            },
            None => None,
        };
        self.todo_pool = pool;
        updated
    }

    /// Removes the item with identity `id` and returns it, or returns `None`
    /// and changes nothing if there is no such item.
    pub fn delete_todo(&mut self, id: &str) -> (removed: Option<Todo>)
        ensures
            match removed {
                Some(todo) => old(self)@.contains_key(id@) && todo@ == old(self)@[id@]
                    && final(self)@ == old(self)@.remove(id@),
                None => !old(self)@.contains_key(id@) && final(self)@ == old(self)@,
            },
    {
        proof {
            use_type_invariant(&*self);
        }
        let mut pool: Vec<Todo> = Vec::new();
        std::mem::swap(&mut pool, &mut self.todo_pool);
        let removed = match find(&pool, id) {
            Some(i) => {
                proof {
                    lemma_index_of(pool@, i as int);
                    lemma_remove(pool@, i as int);
                }
                Some(pool.remove(i))
            },
            None => None,
        };
        self.todo_pool = pool;
        removed
    }

    /// The create operation: stores a new item and answers with it.
    pub fn create(&mut self, payload: CreateTodo) -> (reply: ResponseMessage<Todo>)
        ensures
            reply matches ResponseMessage::Contents(todo) && is_uuid_v4_text(todo@.id) && todo@
                == created(todo@.id, payload@) && final(self)@ == old(self)@.insert(
                todo@.id,
                todo@,
            ),
    {
        ResponseMessage::Contents(self.insert_todo(payload))
    }

    /// The read-all operation: answers with a snapshot of every item.
    pub fn read(&self) -> (reply: ResponseMessage<Vec<Todo>>)
        ensures
            reply matches ResponseMessage::Contents(todos) && is_listing(views(todos@), self@),
    {
        ResponseMessage::Contents(self.get_all_todo())
    }

    /// The update operation: answers with the item's new state, or with
    /// `NotFound`, and then nothing has changed.
    pub fn update(&mut self, id: &str, patch: UpdateTodo) -> (reply: ResponseMessage<Todo>)
        ensures
            final(self)@ == updated(old(self)@, id@, patch@),
            item_outcome(reply) == update_outcome(old(self)@, id@, patch@),
    {
        match self.update_todo(id, patch) {
            Some(todo) => ResponseMessage::Contents(todo),
            None => ResponseMessage::NotFound,
        }
    }

    /// The delete operation: answers `NoContents` if it removed the item, and
    /// `NotFound` if there was none to remove.
    pub fn delete(&mut self, id: &str) -> (reply: ResponseMessage<Todo>)
        ensures
            final(self)@ == old(self)@.remove(id@),
            item_outcome(reply) == delete_outcome(old(self)@, id@),
    {
        let ghost before = self@;
        match self.delete_todo(id) {
            Some(_) => ResponseMessage::NoContents,
            None => {
                assert(before.remove(id@) =~= before);
                ResponseMessage::NotFound
            },
        }
    }

    /// Applies one command: changes the collection as the command asks and
    /// returns the reply together with the command's own slot. A creation
    /// draws its identity here.
    pub fn apply(&mut self, msg: Cmd) -> (reply: Delivery)
        ensures
            reply.answers(msg),
            exists|fresh: Seq<char>|
                #![trigger next_state(old(self)@, msg@, fresh)]
                (msg@ is Create ==> is_uuid_v4_text(fresh)) && final(self)@ == next_state(
                    old(self)@,
                    msg@,
                    fresh,
                ) && reply.conveys(outcome(old(self)@, msg@, fresh)),
    {
        let ghost before = self@;
        let ghost request = msg@;
        match msg {
            Cmd::Create(payload, sender) => {
                let message = self.create(payload);
                let reply = Delivery::Item(sender, message);
                proof {
                    let fresh = message->Contents_0@.id;
                    assert(self@ == next_state(before, request, fresh));
                    assert(reply.conveys(outcome(before, request, fresh)));
                }
                reply
            },
            Cmd::Read(sender) => {
                let message = self.read();
                let reply = Delivery::List(sender, message);
                proof {
                    assert(self@ == next_state(before, request, Seq::empty()));
                    assert(reply.conveys(outcome(before, request, Seq::empty())));
                }
                reply
            },
            Cmd::Update(id, update_todo, sender) => {
                let message = self.update(id.as_str(), update_todo);
                let reply = Delivery::Item(sender, message);
                proof {
                    assert(self@ == next_state(before, request, Seq::empty()));
                    assert(reply.conveys(outcome(before, request, Seq::empty())));
                }
                reply
            },
            Cmd::Delete(id, sender) => {
                let message = self.delete(id.as_str());
                let reply = Delivery::Item(sender, message);
                proof {
                    assert(self@ == next_state(before, request, Seq::empty()));
                    assert(reply.conveys(outcome(before, request, Seq::empty())));
                }
                reply
            },
        }
    }
}

/// Applies one command to the store and puts the reply into the command's
/// slot. Returns whether the slot accepted it. The command has run to its
/// end either way.
pub fn db_step(db: &mut TodoDb, msg: Cmd) -> (delivered: bool)
    ensures
        exists|fresh: Seq<char>| final(db)@ == #[trigger] next_state(old(db)@, msg@, fresh),
{
    db.apply(msg).send()
}

} // verus!
