//! The database steps behind the timer and the MCP tools: writing a chunk of
//! work, counting a completed pomodoro, and the todo lookups and creation that
//! the tools offer.

use vstd::prelude::*;
use rusqlite::Connection;
use crate::db::{session_queries, tag_queries, todo_queries};
use crate::engine::FocusRecord;
use crate::db::sql::{none_failed, DbError, ParamSpec, Sent};
use crate::db::todo_table::{
    apply_log, focus_added, lemma_focus_statements, lemma_read_table, read, reads_table, rows_of, rows_read, TodoRow,
};
use crate::error::{is_read_failure, AppError};
use crate::model::{Tag, Todo};
use crate::view::{completion_message, filter_by_category, find_tag_id};

verus! {

/// The colour of a tag that `todo_create` makes for a name it does not know.
pub const NEW_TAG_COLOR: &'static str = "#6366f1";

/// Writes a chunk of work: a `pomodoro_session` row stamped `at`, and the
/// same seconds added to the todo's focus time. Each write is tried even if
/// the other fails; what failed is not reported. `store_focus_logged` states
/// what the statements do to the todo table.
pub fn store_focus(conn: &Connection, record: &FocusRecord, at: &str) {
    let _ = store_focus_logged(conn, record, at);
}

/// `store_focus`, with what it sent. In every todo table, the statements it
/// sent add the chunk's seconds to the focus time of its todo, and change
/// nothing else, whether the chunk completed a session or not, unless one
/// of them failed.
pub fn store_focus_logged(conn: &Connection, record: &FocusRecord, at: &str) -> (log: Ghost<Seq<Sent>>)
    ensures
        log@.len() == 2,
        forall|table: Seq<TodoRow>| #[trigger] apply_log(table, log@) is Some
            && (none_failed(log@) ==> apply_log(table, log@)->0 == focus_added(table, record.todo_id, record.secs)),
{
    let (_, Ghost(insert)) = session_queries::record_focus_logged(
        conn,
        record.todo_id,
        at,
        record.secs,
        record.completed,
        record.interruptions,
    );
    let (_, Ghost(add)) = todo_queries::add_focus_secs_logged(conn, record.todo_id, record.secs);
    let ghost log = seq![insert, add];
    proof {
        assert(log.drop_last() =~= seq![insert]);
        assert(seq![insert].drop_last() =~= Seq::<Sent>::empty());
        assert forall|table: Seq<TodoRow>| #[trigger] apply_log(table, log) is Some
            && (none_failed(log) ==> apply_log(table, log)->0 == focus_added(table, record.todo_id, record.secs)) by {
            lemma_focus_statements(table, record.todo_id, record.secs, seq![
                ParamSpec::Integer(record.todo_id),
                ParamSpec::Text(at@),
                ParamSpec::Integer(record.secs),
                ParamSpec::Integer(if record.completed { 1 } else { 0 }),
                ParamSpec::Integer(record.interruptions),
            ]);
            assert(apply_log(table, Seq::<Sent>::empty()) == Some(table));
            assert(apply_log(table, seq![insert]) == Some(table));
            if none_failed(log) {
                assert(!(log[1] is Failed));
                assert(apply_log(table, log) == Some(focus_added(table, record.todo_id, record.secs)));
            }
        }
    }
    Ghost(log)
}

/// The id of the todo marked active; none if there is none or it cannot be read.
pub fn active_todo_id(conn: &Connection) -> Option<i64> {
    match todo_queries::get_active(conn) {
        Ok(Some(t)) => Some(t.id),
        _ => None,
    }
}

/// After a completed work session: counts one more pomodoro for the active
/// todo and gives the notification text, or nothing if there is no active
/// todo or the count could not be written.
pub fn complete_active_pomodoro(conn: &Connection) -> (r: Option<String>)
    ensures
        r matches Some(body) ==> exists|t: Todo| #[trigger] completion_text_of(t) == body@,
{
    let todo = match todo_queries::get_active(conn) {
        Ok(Some(t)) => t,
        _ => { return None; },
    };
    let updated = match todo_queries::increment_pomodoro_count(conn, todo.id) {
        Ok(t) => t,
        Err(_) => { return None; },
    };
    let body = completion_message(updated.title.as_str(), updated.pomodoro_count);
    assert(completion_text_of(updated) == body@);
    Some(body)
}

/// The notification text for a todo after its pomodoro count went up.
pub open spec fn completion_text_of(t: Todo) -> Seq<char> {
    "\""@ + t.title@ + "\" finished a session 🍅×"@ + crate::text::signed_decimal(t.pomodoro_count as int)
}

/// Whether some tag in `tags` has this name.
pub fn has_tag_named(tags: &Vec<Tag>, name: &str) -> (b: bool)
    ensures
        b <==> exists|i: int| 0 <= i < tags@.len() && tags@[i].name@ == name@,
{
    match find_tag_id(tags, name) {
        Some(_) => true,
        None => false,
    }
}

/// Whether some tag in `tags` has this name.
pub open spec fn has_name(tags: Seq<Tag>, name: Seq<char>) -> bool {
    exists|i: int| 0 <= i < tags.len() && tags[i].name@ == name
}

/// The todos, in order, whose tags (`tag_sets[i]` for `todos[i]`) include one
/// named `name`.
pub open spec fn tagged(todos: Seq<Todo>, tag_sets: Seq<Vec<Tag>>, name: Seq<char>) -> Seq<Todo>
    decreases todos.len(),
{
    if todos.len() == 0 || tag_sets.len() != todos.len() {
        seq![]
    } else {
        tagged(todos.drop_last(), tag_sets.drop_last(), name)
            + if has_name(tag_sets.last()@, name) { seq![todos.last()] } else { seq![] }
    }
}

/// Keeps the todos that carry a tag named `name`, given each todo's tags.
pub fn keep_tagged(todos: Vec<Todo>, tag_sets: &Vec<Vec<Tag>>, name: &str) -> (r: Vec<Todo>)
    requires
        tag_sets@.len() == todos@.len(),
    ensures
        r@ == tagged(todos@, tag_sets@, name@),
{
    let ghost all = todos@;
    let n = todos.len();
    let mut rest = todos;
    let mut kept: Vec<Todo> = Vec::new();
    let mut k: usize = 0;
    while rest.len() > 0
        invariant
            all.len() == n,
            tag_sets@.len() == n,
            k + rest@.len() == n,
            rest@ == all.skip(k as int),
            kept@ == tagged(all.take(k as int), tag_sets@.take(k as int), name@),
        decreases rest@.len(),
    {
        let t = rest.remove(0);
        proof {
            assert(all.take(k + 1).drop_last() == all.take(k as int));
            assert(all.take(k + 1).last() == t);
            assert(tag_sets@.take(k + 1).drop_last() == tag_sets@.take(k as int));
            assert(tag_sets@.take(k + 1).last() == tag_sets@[k as int]);
            assert(rest@ == all.skip(k + 1));
        }
        if has_tag_named(&tag_sets[k], name) {
            kept.push(t);
        }
        k = k + 1;
    }
    proof {
        assert(all.take(k as int) == all);
        assert(tag_sets@.take(k as int) == tag_sets@);
    }
    kept
}

/// The todos (oldest first) that carry a tag named `tag` and lie in the timing
/// `category`, each filter applying where it is given. The todos and their tags
/// are read from the database; the filtering is `keep_tagged` and
/// `filter_by_category`; `todos_matching_logged` states which todos they
/// apply to.
pub fn todos_matching(conn: &Connection, tag: Option<&str>, category: Option<&str>) -> (r: Result<Vec<Todo>, AppError>)
    ensures
        r matches Ok(ts) ==> exists|all: Seq<Todo>, tag_sets: Seq<Vec<Tag>>|
            tag_sets.len() == all.len() && #[trigger] matching(all, tag_sets, tag, category) == ts@,
{
    todos_matching_logged(conn, tag, category).0
}

/// `todos_matching`, with the query that listed the todos: the filters
/// apply to the todos of every row that query gave, in order, so where it
/// gave the whole table they apply to every todo of the table.
pub fn todos_matching_logged(conn: &Connection, tag: Option<&str>, category: Option<&str>)
    -> (r: (Result<Vec<Todo>, AppError>, Ghost<Sent>))
    ensures
        r.0 matches Ok(ts) ==> exists|all: Seq<Todo>, tag_sets: Seq<Vec<Tag>>|
            tag_sets.len() == all.len() && #[trigger] matching(all, tag_sets, tag, category) == ts@,
        r.0 matches Ok(ts) ==> read(r.1@, todo_queries::list_sql(), Seq::empty())
            && exists|all: Seq<Todo>, tag_sets: Seq<Vec<Tag>>| {
                &&& all.len() == rows_read(r.1@).len()
                &&& forall|i: int| 0 <= i < all.len() ==> todo_queries::row_holds_todo(#[trigger] rows_read(r.1@)[i], all[i])
                &&& tag_sets.len() == all.len()
                &&& #[trigger] matching(all, tag_sets, tag, category) == ts@
            },
        r.0 matches Ok(ts) ==> forall|table: Seq<TodoRow>| #[trigger] reads_table(rows_read(r.1@), table)
            ==> exists|all: Seq<Todo>, tag_sets: Seq<Vec<Tag>>|
                rows_of(all) == table && tag_sets.len() == all.len() && #[trigger] matching(all, tag_sets, tag, category) == ts@,
{
    let (listed, Ghost(sent)) = todo_queries::list_logged(conn);
    let todos = match listed {
        Ok(ts) => ts,
        Err(e) => { return (Err(e), Ghost(sent)); },
    };
    let ghost all = todos@;
    let mut tag_sets: Vec<Vec<Tag>> = Vec::new();
    if tag.is_some() {
        let mut i: usize = 0;
        while i < todos.len()
            invariant
                i <= todos@.len(),
                tag_sets@.len() == i,
            decreases todos@.len() - i,
        {
            match tag_queries::tags_for_todo(conn, todos[i].id) {
                Ok(tags) => tag_sets.push(tags),
                Err(e) => { return (Err(e), Ghost(sent)); },
            }
            i = i + 1;
        }
    } else {
        let mut i: usize = 0;
        while i < todos.len()
            invariant
                i <= todos@.len(),
                tag_sets@.len() == i,
            decreases todos@.len() - i,
        {
            tag_sets.push(Vec::new());
            i = i + 1;
        }
    }
    let ghost sets = tag_sets@;
    let kept = match tag {
        Some(name) => keep_tagged(todos, &tag_sets, name),
        None => todos,
    };
    let r = match category {
        Some(c) => filter_by_category(kept, c),
        None => kept,
    };
    assert(matching(all, sets, tag, category) == r@);
    proof {
        assert forall|table: Seq<TodoRow>| #[trigger] reads_table(rows_read(sent), table)
            implies exists|all: Seq<Todo>, tag_sets: Seq<Vec<Tag>>|
                rows_of(all) == table && tag_sets.len() == all.len() && #[trigger] matching(all, tag_sets, tag, category) == r@ by {
            lemma_read_table(rows_read(sent), table, all);
        }
    }
    (Ok(r), Ghost(sent))
}

/// What `todos_matching` keeps of `all`, given each todo's tags.
pub open spec fn matching(all: Seq<Todo>, tag_sets: Seq<Vec<Tag>>, tag: Option<&str>, category: Option<&str>) -> Seq<Todo> {
    let kept = match tag {
        Some(name) => tagged(all, tag_sets, name@),
        None => all,
    };
    match category {
        Some(c) => crate::view::in_category(kept, c@),
        None => kept,
    }
}

/// How `todo_create` gets the tag for a name: the id of a tag that already
/// exists, or a new tag of that name.
#[derive(Debug)]
pub enum TagStep {
    Reuse(i64),
    Create(String),
}

/// Whether `step` is what a name asks for given the tags that exist: the id
/// of the first tag with that name, or, with none, a new tag of that name.
pub open spec fn step_for(tags: Seq<Tag>, name: Seq<char>, step: TagStep) -> bool {
    match step {
        TagStep::Reuse(id) => exists|i: int| 0 <= i < tags.len() && tags[i].name@ == name && tags[i].id == id
            && forall|j: int| 0 <= j < i ==> tags[j].name@ != name,
        TagStep::Create(n) => n@ == name && !has_name(tags, name),
    }
}

/// The tag steps of `todo_create`, one per name in order, decided against the
/// tags that existed before any was made.
pub fn tag_plan(existing: &Vec<Tag>, tag_names: &Vec<String>) -> (plan: Vec<TagStep>)
    ensures
        plan@.len() == tag_names@.len(),
        forall|k: int| 0 <= k < plan@.len() ==> step_for(existing@, tag_names@[k]@, #[trigger] plan@[k]),
{
    let mut plan: Vec<TagStep> = Vec::new();
    let mut i: usize = 0;
    while i < tag_names.len()
        invariant
            i <= tag_names@.len(),
            plan@.len() == i,
            forall|k: int| 0 <= k < plan@.len() ==> step_for(existing@, tag_names@[k]@, #[trigger] plan@[k]),
        decreases tag_names@.len() - i,
    {
        let name = tag_names[i].as_str();
        let step = match find_tag_id(existing, name) {
            Some(id) => TagStep::Reuse(id),
            None => TagStep::Create(String::from_str(name)),
        };
        plan.push(step);
        i = i + 1;
    }
    plan
}

/// Creates a todo for `todo_create`: the trimmed title and the estimate, then
/// the timing if one is given, then the steps of `tag_plan` in order, each
/// tag (reused, or made with `NEW_TAG_COLOR`) put on the new todo. The first
/// failing step fails the whole; steps done before it stay. The todo is read
/// back at the end. A missing todo, a failed or unreadable query, or a new tag
/// that cannot be read back are the errors (the last only where tags were
/// asked for); which one, and whether any, is up to the database.
pub fn create_todo_with_tags(
    conn: &Connection,
    title: &str,
    target_count: Option<i64>,
    category: Option<&str>,
    tag_names: &Vec<String>,
) -> (r: Result<Todo, AppError>)
    ensures
        r matches Err(e) ==> e is TodoNotFound || is_read_failure(e) || e matches AppError::Database(DbError::NoRows),
        r matches Err(AppError::Database(DbError::NoRows)) ==> tag_names@.len() > 0,
{
    let todo = match todo_queries::create(conn, title, target_count) {
        Ok(t) => t,
        Err(e) => { return Err(e); },
    };
    match category {
        Some(c) => {
            match todo_queries::update_category(conn, todo.id, c) {
                Ok(_) => {},
                Err(e) => { return Err(e); },
            }
        },
        None => {},
    }
    let existing = match tag_queries::list(conn) {
        Ok(tags) => tags,
        Err(e) => { return Err(e); },
    };
    let plan = tag_plan(&existing, tag_names);
    let mut k: usize = 0;
    while k < plan.len()
        invariant
            k <= plan@.len(),
            plan@.len() == tag_names@.len(),
        decreases plan@.len() - k,
    {
        let tag_id = match &plan[k] {
            TagStep::Reuse(id) => *id,
            TagStep::Create(name) => match tag_queries::create(conn, name.as_str(), NEW_TAG_COLOR) {
                Ok(tag) => tag.id,
                Err(e) => { return Err(e); },
            },
        };
        match tag_queries::add_to_todo(conn, todo.id, tag_id) {
            Ok(()) => {},
            Err(e) => { return Err(e); },
        }
        k = k + 1;
    }
    todo_queries::get(conn, todo.id)
}

} // verus!
