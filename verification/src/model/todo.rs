use vstd::prelude::*;

verus! {

/// The mathematical value of a todo item.
pub ghost struct TodoView {
    pub id: Seq<char>,
    pub todo_text: Seq<char>,
    pub completed: bool,
}

/// The mathematical value of an update intent: the target and, for each
/// mutable field, the new value if one is to be applied.
pub ghost struct UpdateTodoView {
    pub target_id: Seq<char>,
    pub todo_text: Option<Seq<char>>,
    pub completed: Option<bool>,
}

/// Whether `c` is one of `0`..`9`, `a`..`f`.
pub open spec fn is_lower_hex(c: char) -> bool {
    ('0' <= c && c <= '9') || ('a' <= c && c <= 'f')
}

/// Whether `s` is the lower-case hyphenated text of a version 4 UUID:
/// `xxxxxxxx-xxxx-4xxx-yxxx-xxxxxxxxxxxx` with `y` one of `8 9 a b`.
pub open spec fn is_uuid_v4_text(s: Seq<char>) -> bool {
    &&& s.len() == 36
    &&& s[8] == '-' && s[13] == '-' && s[18] == '-' && s[23] == '-'
    &&& forall|i: int|
        0 <= i < 36 && i != 8 && i != 13 && i != 18 && i != 23 ==> is_lower_hex(#[trigger] s[i])
    &&& s[14] == '4'
    &&& (s[19] == '8' || s[19] == '9' || s[19] == 'a' || s[19] == 'b')
}

/// Calls `uuid::Uuid::new_v4` and renders the result with its `Display`
/// impl. Trusted: the text is the 36-character lower-case hyphenated form,
/// with the version digit `4` and an RFC 4122 variant digit. Which UUID comes
/// back is up to the operating system's random source, so nothing more is
/// claimed; in particular two calls may return the same text.
#[verifier::external_body]
fn random_uuid_text() -> (id: String)
    ensures
        is_uuid_v4_text(id@),
{
    uuid::Uuid::new_v4().to_string()
}

/// A deletion intent: the identity of the item to remove.
#[derive(Debug)]
pub struct DeleteTodo {
    target_id: String,
}

impl View for DeleteTodo {
    type V = Seq<char>;

    /// The target identity.
    closed spec fn view(&self) -> Seq<char> {
        self.target_id@
    }
}

impl Clone for DeleteTodo {
    fn clone(&self) -> (r: Self)
        ensures
            r == *self,
    {
        DeleteTodo { target_id: self.target_id.clone() }
    }
}

impl DeleteTodo {
    /// A deletion of the item with identity `target_id`.
    pub fn new(target_id: String) -> (r: Self)
        ensures
            r@ == target_id@,
    {
        DeleteTodo { target_id }
    }

    /// The identity of the item to remove.
    pub fn get_target_id(&self) -> (id: &str)
        ensures
            id@ == self@,
    {
        self.target_id.as_str()
    }
}

/// A creation intent: the initial text and nothing else.
#[derive(Debug)]
pub struct CreateTodo {
    todo_text: String,
}

impl View for CreateTodo {
    type V = Seq<char>;

    /// The initial text.
    closed spec fn view(&self) -> Seq<char> {
        self.todo_text@
    }
}

impl Clone for CreateTodo {
    fn clone(&self) -> (r: Self)
        ensures
            r == *self,
    {
        CreateTodo { todo_text: self.todo_text.clone() }
    }
}

impl CreateTodo {
    /// A creation of an item with the text `todo_text`.
    pub fn new(todo_text: &str) -> (r: Self)
        ensures
            r@ == todo_text@,
    {
        CreateTodo { todo_text: todo_text.to_owned() }
    }

    /// The initial text.
    pub fn get_text(&self) -> (text: &str)
        ensures
            text@ == self@,
    {
        self.todo_text.as_str()
    }
}

/// A todo item. The identity is fixed when the item is made; text and
/// completion flag can be changed afterwards.
#[derive(Debug)]
pub struct Todo {
    id: String,
    todo_text: String,
    completed: bool,
}

impl View for Todo {
    type V = TodoView;

    closed spec fn view(&self) -> TodoView {
        TodoView { id: self.id@, todo_text: self.todo_text@, completed: self.completed }
    }
}

impl Clone for Todo {
    fn clone(&self) -> (r: Self)
        ensures
            r == *self,
    {
        Todo {
            id: self.id.clone(),
            todo_text: self.todo_text.clone(),
            completed: self.completed,
        }
    }
}

impl Todo {
    /// A new, uncompleted item with the payload's text and a freshly drawn
    /// random identity.
    pub fn new(payload: CreateTodo) -> (todo: Self)
        ensures
            is_uuid_v4_text(todo@.id),
            todo@.todo_text == payload@,
            !todo@.completed,
    {
        Todo::with_id(random_uuid_text(), payload)
    }

    /// A new, uncompleted item with the payload's text and the given identity.
    pub fn with_id(id: String, payload: CreateTodo) -> (todo: Self)
        ensures
            todo@ == (TodoView { id: id@, todo_text: payload@, completed: false }),
    {
        Todo { id, todo_text: payload.todo_text, completed: false }
    }

    /// The identity of the item.
    pub fn get_id(&self) -> (id: &str)
        ensures
            id@ == self@.id,
    {
        self.id.as_str()
    }

    /// The text of the item.
    pub fn get_text(&self) -> (text: &str)
        ensures
            text@ == self@.todo_text,
    {
        self.todo_text.as_str()
    }

    /// Whether the item is completed.
    pub fn get_completed(&self) -> (completed: bool)
        ensures
            completed == self@.completed,
    {
        self.completed
    }

    /// Replaces the text and leaves the rest.
    pub fn modify_text(&mut self, text: &str)
        ensures
            final(self)@ == (TodoView { todo_text: text@, ..old(self)@ }),
    {
        self.todo_text = text.to_owned();
    }

    /// Replaces the completion flag and leaves the rest.
    pub fn modify_completed(&mut self, completed: bool)
        ensures
            final(self)@ == (TodoView { completed, ..old(self)@ }),
    {
        self.completed = completed;
    }
}

/// An update intent: a target identity and, optionally, a new text and a new
/// completion flag. A field that is absent is left as it is.
#[derive(Debug)]
pub struct UpdateTodo {
    target_id: String,
    todo_text: Option<String>,
    completed: Option<bool>,
}

/// The text that an optional string stands for.
pub open spec fn opt_text(s: Option<String>) -> Option<Seq<char>> {
    match s {
        Some(t) => Some(t@),
        None => None,
    }
}

impl View for UpdateTodo {
    type V = UpdateTodoView;

    closed spec fn view(&self) -> UpdateTodoView {
        UpdateTodoView {
            target_id: self.target_id@,
            todo_text: opt_text(self.todo_text),
            completed: self.completed,
        }
    }
}

impl Clone for UpdateTodo {
    fn clone(&self) -> (r: Self)
        ensures
            r == *self,
    {
        UpdateTodo {
            target_id: self.target_id.clone(),
            todo_text: match &self.todo_text {
                Some(t) => Some(t.clone()),
                None => None,
            },
            completed: self.completed,
        }
    }
}

impl UpdateTodo {
    /// An update of `target_id` that changes nothing yet.
    pub fn new(target_id: String) -> (r: Self)
        ensures
            r@ == (UpdateTodoView { target_id: target_id@, todo_text: None, completed: None }),
    {
        Self { target_id, todo_text: None, completed: None }
    }

    /// Whether the update holds a new text.
    pub fn have_text(&self) -> (r: bool)
        ensures
            r == self@.todo_text.is_some(),
    {
        self.todo_text.is_some()
    }

    /// Whether the update holds a new completion flag.
    pub fn have_completed(&self) -> (r: bool)
        ensures
            r == self@.completed.is_some(),
    {
        self.completed.is_some()
    }

    /// The identity of the item to update.
    pub fn get_target_id(&self) -> (id: &str)
        ensures
            id@ == self@.target_id,
    {
        self.target_id.as_str()
    }

    /// The new text, if the update holds one.
    pub fn get_text(&self) -> (text: &Option<String>)
        ensures
            opt_text(*text) == self@.todo_text,
    {
        &self.todo_text
    }

    /// The new completion flag, if the update holds one.
    pub fn get_completed(&self) -> (completed: &Option<bool>)
        ensures
            *completed == self@.completed,
    {
        &self.completed
    }

    /// Makes the update set the text to `payload_text`, and returns the update.
    pub fn set_text(&mut self, payload_text: &str) -> (r: &UpdateTodo)
        ensures
            final(self)@ == (UpdateTodoView { todo_text: Some(payload_text@), ..old(self)@ }),
            r@ == final(self)@,
    {
        self.todo_text = Some(payload_text.to_owned());
        let update_todo_asref: &UpdateTodo = self;
        update_todo_asref
    }

    /// Makes the update set the completion flag to `payload_completed`, and
    /// returns the update.
    pub fn set_completed(&mut self, payload_completed: bool) -> (r: &UpdateTodo)
        ensures
            final(self)@ == (UpdateTodoView { completed: Some(payload_completed), ..old(self)@ }),
            r@ == final(self)@,
    {
        self.completed = Some(payload_completed);
        let update_todo_asref: &UpdateTodo = self;
        update_todo_asref
    }
}

/// The values of a sequence of items, in order.
pub open spec fn views(items: Seq<Todo>) -> Seq<TodoView> {
    Seq::new(items.len(), |i: int| items[i]@)
}

} // verus!
