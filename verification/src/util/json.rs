use crate::model::todo::{views, Todo, TodoView};
use vstd::prelude::*;
use vstd::string::StringExecFns;

verus! {

/// The JSON string literal for `text`, quotes included, as `serde_json`
/// writes it.
pub uninterp spec fn json_string(text: Seq<char>) -> Seq<char>;

/// Calls `serde_json::to_string` on a string slice. Trusted: the result is
/// a function of the text alone, named `json_string`, and the call does not
/// fail: a string slice has neither a failing `Serialize` impl nor a map
/// key, the two sources of error that the crate documents.
#[verifier::external_body]
fn quote(text: &str) -> (quoted: String)
    ensures
        quoted@ == json_string(text@),
{
    serde_json::to_string(text).unwrap_or_default()
}

/// The JSON literal for a boolean.
pub open spec fn json_bool(value: bool) -> Seq<char> {
    if value {
        "true"@
    } else {
        "false"@
    }
}

/// The JSON object for an item: its three fields in the order identity,
/// text, completion flag, without white space.
pub open spec fn todo_json(todo: TodoView) -> Seq<char> {
    "{\"id\":"@ + json_string(todo.id) + ",\"todo_text\":"@ + json_string(todo.todo_text)
        + ",\"completed\":"@ + json_bool(todo.completed) + "}"@
}

/// The JSON objects of `todos`, in order, with a comma between neighbours.
pub open spec fn joined_json(todos: Seq<TodoView>) -> Seq<char>
    decreases todos.len(),
{
    if todos.len() == 0 {
        Seq::empty()
    } else if todos.len() == 1 {
        todo_json(todos[0])
    } else {
        joined_json(todos.drop_last()) + ","@ + todo_json(todos.last())
    }
}

/// The JSON array of `todos`, in order, without white space.
pub open spec fn todos_json(todos: Seq<TodoView>) -> Seq<char> {
    "["@ + joined_json(todos) + "]"@
}

/// Renders one item as a JSON object.
pub fn render_todo(todo: &Todo) -> (json: String)
    ensures
        json@ == todo_json(todo@),
{
    let mut json = String::new();
    json.append("{\"id\":");
    json.append(quote(todo.get_id()).as_str());
    json.append(",\"todo_text\":");
    json.append(quote(todo.get_text()).as_str());
    json.append(",\"completed\":");
    if todo.get_completed() {
        json.append("true");
    } else {
        json.append("false");
    }
    json.append("}");
    assert(json@ =~= todo_json(todo@));
    json
}

/// Renders a list of items as a JSON array, in the list's order.
pub fn render_todos(todos: &Vec<Todo>) -> (json: String)
    ensures
        json@ == todos_json(views(todos@)),
{
    let mut json = String::new();
    json.append("[");
    let mut i: usize = 0;
    while i < todos.len()
        invariant
            i <= todos.len(),
            json@ == "["@ + joined_json(views(todos@).take(i as int)),
        decreases todos.len() - i,
    {
        let ghost before = views(todos@).take(i as int);
        let ghost after = views(todos@).take(i + 1);
        assert(after.drop_last() =~= before);
        assert(after.last() == todos[i as int]@);
        if i > 0 {
            json.append(",");
        }
        json.append(render_todo(&todos[i]).as_str());
        i += 1;
        assert(json@ =~= "["@ + joined_json(after));
    }
    assert(views(todos@).take(todos.len() as int) =~= views(todos@));
    json.append("]");
    json
}

} // verus!
