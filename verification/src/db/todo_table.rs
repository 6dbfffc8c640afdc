//! The `todo` table as rows, what the statements this library sends do to
//! it, and how its rows read back. The laws here hold of the statements
//! themselves; the `*_logged` functions of the query modules state which
//! statements they sent.

use vstd::prelude::*;
use crate::db::sql::{int_at, opt_int_at, opt_int_spec, text_at, ParamSpec, Sent, SqlValue};
use crate::model::Todo;

verus! {

/// A row of the `todo` table.
pub struct TodoRow {
    pub id: i64,
    pub title: Seq<char>,
    pub is_completed: bool,
    pub pomodoro_count: i64,
    pub target_count: Option<i64>,
    pub is_active: bool,
    pub created_at: Seq<char>,
    pub category: Seq<char>,
    pub focus_secs: int,
}

/// The row a todo read from the table stands for.
pub open spec fn row_of(t: Todo) -> TodoRow {
    TodoRow {
        id: t.id,
        title: t.title@,
        is_completed: t.is_completed,
        pomodoro_count: t.pomodoro_count,
        target_count: t.target_count,
        is_active: t.is_active,
        created_at: t.created_at@,
        category: t.category@,
        focus_secs: t.focus_secs as int,
    }
}

/// The rows that todos read from the table stand for.
pub open spec fn rows_of(todos: Seq<Todo>) -> Seq<TodoRow> {
    todos.map_values(|t: Todo| row_of(t))
}

/// Whether a result row (in `SELECT_COLUMNS` order) is how `row` reads.
pub open spec fn reads_as(values: Seq<SqlValue>, row: TodoRow) -> bool {
    &&& int_at(values, 0) == Some(row.id)
    &&& text_at(values, 1) == Some(row.title)
    &&& int_at(values, 2) matches Some(c) && row.is_completed == (c != 0)
    &&& int_at(values, 3) == Some(row.pomodoro_count)
    &&& opt_int_at(values, 4) == Some(row.target_count)
    &&& int_at(values, 5) matches Some(a) && row.is_active == (a != 0)
    &&& text_at(values, 6) == Some(row.created_at)
    &&& text_at(values, 7) == Some(row.category)
    &&& int_at(values, 8) matches Some(f) && row.focus_secs == f
}

/// Whether the rows of a query are the rows of `table`, in order.
pub open spec fn reads_table(rows: Seq<Seq<SqlValue>>, table: Seq<TodoRow>) -> bool {
    &&& rows.len() == table.len()
    &&& forall|i: int| 0 <= i < rows.len() ==> reads_as(#[trigger] rows[i], table[i])
}

/// Whether every row a query gave is how some row of `table` with this id reads.
pub open spec fn reads_rows_with_id(rows: Seq<Seq<SqlValue>>, table: Seq<TodoRow>, id: i64) -> bool {
    forall|k: int| 0 <= k < rows.len()
        ==> exists|i: int| 0 <= i < table.len() && table[i].id == id && reads_as(#[trigger] rows[k], table[i])
}

/// Whether the rows of the query for the active todo are how active rows of
/// `table` read, with at least one row when some todo is active.
pub open spec fn reads_active(rows: Seq<Seq<SqlValue>>, table: Seq<TodoRow>) -> bool {
    &&& forall|k: int| 0 <= k < rows.len()
        ==> exists|i: int| 0 <= i < table.len() && table[i].is_active && reads_as(#[trigger] rows[k], table[i])
    &&& (exists|i: int| 0 <= i < table.len() && #[trigger] table[i].is_active) ==> rows.len() > 0
}

/// The integer bound to a parameter, if it is one.
pub open spec fn param_int(p: ParamSpec) -> Option<i64> {
    match p {
        ParamSpec::Integer(n) => Some(n),
        _ => None,
    }
}

/// The text bound to a parameter, if it is one.
pub open spec fn param_text(p: ParamSpec) -> Option<Seq<char>> {
    match p {
        ParamSpec::Text(t) => Some(t),
        _ => None,
    }
}

/// An integer or `NULL` bound to a parameter, if it is one of these.
pub open spec fn param_opt_int(p: ParamSpec) -> Option<Option<i64>> {
    match p {
        ParamSpec::Integer(n) => Some(Some(n)),
        ParamSpec::Null => Some(None),
        _ => None,
    }
}

/// `UPDATE todo SET is_active = 0`.
pub open spec fn clear_active_sql() -> Seq<char> {
    "UPDATE todo SET is_active = 0"@
}

/// `UPDATE todo SET is_active = 1 WHERE id = ?1`.
pub open spec fn mark_active_sql() -> Seq<char> {
    "UPDATE todo SET is_active = 1 WHERE id = ?1"@
}

/// `UPDATE todo SET title = ?1, target_count = ?2 WHERE id = ?3`.
pub open spec fn update_sql() -> Seq<char> {
    "UPDATE todo SET title = ?1, target_count = ?2 WHERE id = ?3"@
}

/// `UPDATE todo SET focus_secs = focus_secs + ?1 WHERE id = ?2`.
pub open spec fn add_focus_sql() -> Seq<char> {
    "UPDATE todo SET focus_secs = focus_secs + ?1 WHERE id = ?2"@
}

/// The insert of a chunk of work into `pomodoro_session`.
pub open spec fn record_focus_sql() -> Seq<char> {
    "INSERT INTO pomodoro_session (todo_id, started_at, duration_secs, completed, interruption_count) VALUES (?1, ?2, ?3, ?4, ?5)"@
}

/// The rows with every active mark cleared.
pub open spec fn cleared(table: Seq<TodoRow>) -> Seq<TodoRow> {
    table.map_values(|r: TodoRow| TodoRow { is_active: false, ..r })
}

/// The rows with the todo `id` marked active.
pub open spec fn marked(table: Seq<TodoRow>, id: i64) -> Seq<TodoRow> {
    table.map_values(|r: TodoRow| if r.id == id { TodoRow { is_active: true, ..r } } else { r })
}

/// The rows with the todo `id` given this title and estimate.
pub open spec fn edited(table: Seq<TodoRow>, id: i64, title: Seq<char>, target: Option<i64>) -> Seq<TodoRow> {
    table.map_values(|r: TodoRow| if r.id == id { TodoRow { title, target_count: target, ..r } } else { r })
}

/// The rows with `secs` added to the focus time of the todo `id`.
pub open spec fn focus_added(table: Seq<TodoRow>, id: i64, secs: i64) -> Seq<TodoRow> {
    table.map_values(|r: TodoRow| if r.id == id { TodoRow { focus_secs: r.focus_secs + secs, ..r } } else { r })
}

/// What a statement that ran does to the todo table, for the statements
/// described here (`None` for any other).
pub open spec fn effect(table: Seq<TodoRow>, sql: Seq<char>, p: Seq<ParamSpec>) -> Option<Seq<TodoRow>> {
    if sql == clear_active_sql() && p.len() == 0 {
        Some(cleared(table))
    } else if sql == mark_active_sql() && p.len() == 1 && param_int(p[0]) is Some {
        Some(marked(table, param_int(p[0])->0))
    } else if sql == update_sql() && p.len() == 3 && param_text(p[0]) is Some && param_opt_int(p[1]) is Some
        && param_int(p[2]) is Some {
        Some(edited(table, param_int(p[2])->0, param_text(p[0])->0, param_opt_int(p[1])->0))
    } else if sql == add_focus_sql() && p.len() == 2 && param_int(p[0]) is Some && param_int(p[1]) is Some {
        Some(focus_added(table, param_int(p[1])->0, param_int(p[0])->0))
    } else if sql == record_focus_sql() {
        Some(table)
    } else {
        None
    }
}

/// The todo table after the statements of `log`, in order: a query or a
/// failed statement changes nothing. `None` where a statement that ran is
/// not described here.
pub open spec fn apply_log(table: Seq<TodoRow>, log: Seq<Sent>) -> Option<Seq<TodoRow>>
    decreases log.len(),
{
    if log.len() == 0 {
        Some(table)
    } else {
        match apply_log(table, log.drop_last()) {
            None => None,
            Some(t) => match log.last() {
                Sent::Done { sql, params, .. } => effect(t, sql, params),
                _ => Some(t),
            },
        }
    }
}

/// Whether exactly the todo `id` is active (none for `None`).
pub open spec fn only_active(table: Seq<TodoRow>, id: Option<i64>) -> bool {
    forall|i: int| 0 <= i < table.len() ==> (#[trigger] table[i].is_active <==> id == Some(table[i].id))
}

/// The rows a query gave (none for anything else).
pub open spec fn rows_read(s: Sent) -> Seq<Seq<SqlValue>> {
    match s {
        Sent::Read { rows, .. } => rows,
        _ => Seq::empty(),
    }
}

/// Whether `s` is the query `sql` with `params`, and it gave rows.
pub open spec fn read(s: Sent, sql: Seq<char>, params: Seq<ParamSpec>) -> bool {
    s matches Sent::Read { sql: a, params: b, .. } && a == sql && b == params
}

/// Whether `s` is the statement `sql` with `params`, and it ran.
pub open spec fn ran(s: Sent, sql: Seq<char>, params: Seq<ParamSpec>) -> bool {
    s matches Sent::Done { sql: a, params: b, .. } && a == sql && b == params
}

/// Whether `s` is the statement `sql` with `params`, whether it ran or failed.
pub open spec fn tried(s: Sent, sql: Seq<char>, params: Seq<ParamSpec>) -> bool {
    ||| ran(s, sql, params)
    ||| (s matches Sent::Failed { sql: a, params: b } && a == sql && b == params)
}

proof fn lemma_sql_texts_differ()
    ensures
        clear_active_sql() != mark_active_sql(),
        clear_active_sql() != update_sql(),
        clear_active_sql() != add_focus_sql(),
        clear_active_sql() != record_focus_sql(),
        mark_active_sql() != update_sql(),
        mark_active_sql() != add_focus_sql(),
        mark_active_sql() != record_focus_sql(),
        update_sql() != add_focus_sql(),
        update_sql() != record_focus_sql(),
        add_focus_sql() != record_focus_sql(),
{
    reveal_strlit("UPDATE todo SET is_active = 0");
    reveal_strlit("UPDATE todo SET is_active = 1 WHERE id = ?1");
    reveal_strlit("UPDATE todo SET title = ?1, target_count = ?2 WHERE id = ?3");
    reveal_strlit("UPDATE todo SET focus_secs = focus_secs + ?1 WHERE id = ?2");
    reveal_strlit(
        "INSERT INTO pomodoro_session (todo_id, started_at, duration_secs, completed, interruption_count) VALUES (?1, ?2, ?3, ?4, ?5)",
    );
    assert(clear_active_sql().len() != mark_active_sql().len());
    assert(clear_active_sql().len() != update_sql().len());
    assert(clear_active_sql().len() != add_focus_sql().len());
    assert(clear_active_sql().len() != record_focus_sql().len());
    assert(mark_active_sql().len() != update_sql().len());
    assert(mark_active_sql().len() != add_focus_sql().len());
    assert(mark_active_sql().len() != record_focus_sql().len());
    assert(update_sql().len() != record_focus_sql().len());
    assert(add_focus_sql().len() != record_focus_sql().len());
    assert(update_sql()[16] != add_focus_sql()[16]);
}

/// The statement that clears every active mark leaves no todo active, and
/// after it the statement that marks `id` leaves exactly the todo `id` active.
pub proof fn lemma_clear_then_mark(table: Seq<TodoRow>, id: i64)
    ensures
        effect(table, clear_active_sql(), seq![]) == Some(cleared(table)),
        only_active(cleared(table), None),
        effect(cleared(table), mark_active_sql(), seq![ParamSpec::Integer(id)]) == Some(marked(cleared(table), id)),
        only_active(marked(cleared(table), id), Some(id)),
{
    lemma_sql_texts_differ();
    assert(param_int(seq![ParamSpec::Integer(id)][0]) == Some(id));
}

/// The statement of an edit gives the todo `id` exactly the title and the
/// estimate it binds (`NULL` clears the estimate), and leaves the other
/// todos as they were.
pub proof fn lemma_edit(table: Seq<TodoRow>, id: i64, title: Seq<char>, target: Option<i64>)
    ensures
        effect(table, update_sql(), seq![ParamSpec::Text(title), opt_int_spec(target), ParamSpec::Integer(id)])
            == Some(edited(table, id, title, target)),
        forall|i: int| 0 <= i < table.len() && table[i].id == id
            ==> (#[trigger] edited(table, id, title, target)[i]).title == title
                && edited(table, id, title, target)[i].target_count == target,
        forall|i: int| 0 <= i < table.len() && table[i].id != id
            ==> #[trigger] edited(table, id, title, target)[i] == table[i],
{
    lemma_sql_texts_differ();
    let p = seq![ParamSpec::Text(title), opt_int_spec(target), ParamSpec::Integer(id)];
    assert(param_text(p[0]) == Some(title));
    assert(param_opt_int(p[1]) == Some(target));
    assert(param_int(p[2]) == Some(id));
}

/// The statement that adds focus time adds `secs` to the todo `id` and to no
/// other; the insert of a chunk of work leaves the todo table as it was.
pub proof fn lemma_focus_statements(table: Seq<TodoRow>, id: i64, secs: i64, sp: Seq<ParamSpec>)
    ensures
        effect(table, add_focus_sql(), seq![ParamSpec::Integer(secs), ParamSpec::Integer(id)])
            == Some(focus_added(table, id, secs)),
        effect(table, record_focus_sql(), sp) == Some(table),
        forall|i: int| 0 <= i < table.len()
            ==> (#[trigger] focus_added(table, id, secs)[i]).focus_secs
                == table[i].focus_secs + (if table[i].id == id { secs as int } else { 0 }),
{
    lemma_sql_texts_differ();
    let p = seq![ParamSpec::Integer(secs), ParamSpec::Integer(id)];
    assert(param_int(p[0]) == Some(secs));
    assert(param_int(p[1]) == Some(id));
}

/// A todo read from a row that is how `row` reads stands for `row`.
pub proof fn lemma_read_back(values: Seq<SqlValue>, row: TodoRow, t: Todo)
    requires
        reads_as(values, row),
        crate::db::todo_queries::row_holds_todo(values, t),
    ensures
        row_of(t) == row,
{
}

/// The todos read from the rows of a query that gave the whole table are
/// the table's rows, in order.
pub proof fn lemma_read_table(rows: Seq<Seq<SqlValue>>, table: Seq<TodoRow>, todos: Seq<Todo>)
    requires
        reads_table(rows, table),
        todos.len() == rows.len(),
        forall|i: int| 0 <= i < rows.len() ==> crate::db::todo_queries::row_holds_todo(#[trigger] rows[i], todos[i]),
    ensures
        rows_of(todos) == table,
{
    assert forall|i: int| 0 <= i < table.len() implies #[trigger] rows_of(todos)[i] == table[i] by {
        lemma_read_back(rows[i], table[i], todos[i]);
    }
    assert(rows_of(todos) =~= table);
}

/// Once exactly the todo `id` is active (none for `None`), the query for the
/// active todo finds nothing after clearing, and otherwise only that todo,
/// if it is in the table at all.
pub proof fn lemma_active_read(rows: Seq<Seq<SqlValue>>, table: Seq<TodoRow>, id: Option<i64>)
    requires
        only_active(table, id),
        reads_active(rows, table),
    ensures
        id is None ==> rows.len() == 0,
        forall|k: int| 0 <= k < rows.len() ==> id is Some && int_at(#[trigger] rows[k], 0) == id,
        (id is Some && exists|i: int| 0 <= i < table.len() && #[trigger] table[i].id == id->0) ==> rows.len() > 0,
{
    if id is None && rows.len() > 0 {
        let i = choose|i: int| 0 <= i < table.len() && table[i].is_active && reads_as(rows[0], table[i]);
        assert(table[i].is_active);
    }
    assert forall|k: int| 0 <= k < rows.len() implies id is Some && int_at(#[trigger] rows[k], 0) == id by {
        let i = choose|i: int| 0 <= i < table.len() && table[i].is_active && reads_as(rows[k], table[i]);
        assert(table[i].is_active);
    }
    if id is Some && exists|i: int| 0 <= i < table.len() && #[trigger] table[i].id == id->0 {
        let i = choose|i: int| 0 <= i < table.len() && #[trigger] table[i].id == id->0;
        assert(table[i].is_active);
    }
}

} // verus!
