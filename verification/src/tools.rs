//! The tools offered over MCP: reading a `tools/call` into a command, the
//! texts the tools answer with, and the `tools/list` definitions.

use vstd::prelude::*;
use serde_json::Value;
use crate::json::{
    array1, array2, json_array, json_list, json_map, json_string, json_text, object0, object1, object2, object3, object4,
    array_of, i64_of, json_as_array, json_as_i64, json_as_str, json_get, member_of, str_of,
};
use crate::protocol::{text_result, tool_error, text_content};
use crate::text::{chars_of, push_signed_padded, push_str, signed_decimal, str_eq, string_of_range, trim_bounds, trimmed};

verus! {

/// The text of an optional string.
pub open spec fn opt_text(o: Option<String>) -> Option<Seq<char>> {
    match o {
        Some(s) => Some(s@),
        None => None,
    }
}

/// The string argument `key` of a tool call.
pub open spec fn str_arg_of(args: Value, key: Seq<char>) -> Option<Seq<char>> {
    match member_of(args, key) {
        Some(v) => str_of(v),
        None => None,
    }
}

/// The integer argument `key` of a tool call.
pub open spec fn i64_arg_of(args: Value, key: Seq<char>) -> Option<int> {
    match member_of(args, key) {
        Some(v) => i64_of(v),
        None => None,
    }
}

/// The strings among `items`, in order (other elements are skipped).
pub open spec fn strings_among(items: Seq<Value>) -> Seq<Seq<char>>
    decreases items.len(),
{
    if items.len() == 0 {
        seq![]
    } else {
        strings_among(items.drop_last()) + match str_of(items.last()) {
            Some(s) => seq![s],
            None => seq![],
        }
    }
}

/// The tag names of `todo_create`: the strings of the `tags` array, if any.
pub open spec fn tags_arg_of(args: Value) -> Seq<Seq<char>> {
    match member_of(args, "tags"@) {
        Some(v) => match array_of(v) {
            Some(items) => strings_among(items),
            None => seq![],
        },
        None => seq![],
    }
}

pub fn str_arg(args: &Value, key: &str) -> (r: Option<String>)
    ensures
        opt_text(r) == str_arg_of(*args, key@),
{
    match json_get(args, key) {
        Some(v) => json_as_str(&v),
        None => None,
    }
}

pub fn i64_arg(args: &Value, key: &str) -> (r: Option<i64>)
    ensures
        r matches Some(n) ==> i64_arg_of(*args, key@) == Some(n as int),
        r is None ==> i64_arg_of(*args, key@) is None,
{
    match json_get(args, key) {
        Some(v) => json_as_i64(&v),
        None => None,
    }
}

fn tags_arg(args: &Value) -> (r: Vec<String>)
    ensures
        r@.map_values(|s: String| s@) == tags_arg_of(*args),
{
    let mut out: Vec<String> = Vec::new();
    let tags = match json_get(args, "tags") {
        Some(v) => v,
        None => {
            assert(out@.map_values(|s: String| s@) =~= Seq::<Seq<char>>::empty());
            return out;
        },
    };
    let items = match json_as_array(&tags) {
        Some(items) => items,
        None => {
            assert(out@.map_values(|s: String| s@) =~= Seq::<Seq<char>>::empty());
            return out;
        },
    };
    let mut i: usize = 0;
    while i < items.len()
        invariant
            i <= items@.len(),
            out@.map_values(|s: String| s@) == strings_among(items@.take(i as int)),
        decreases items@.len() - i,
    {
        let ghost before = out@;
        match json_as_str(&items[i]) {
            Some(s) => {
                out.push(s);
                proof {
                    assert(out@.map_values(|s: String| s@) =~= before.map_values(|s: String| s@).push(s@));
                }
            },
            None => {},
        }
        proof {
            assert(items@.take(i + 1).drop_last() == items@.take(i as int));
            assert(items@.take(i + 1).last() == items@[i as int]);
        }
        i = i + 1;
    }
    assert(items@.take(i as int) == items@);
    out
}

/// A tool call, checked and read from its name and arguments.
pub enum ToolCall {
    TodoList { tag: Option<String>, category: Option<String> },
    TodoCreate { title: String, target_count: Option<i64>, category: Option<String>, tags: Vec<String> },
    TodoDelete { id: i64 },
    TodoSetActive { todo_id: Option<i64> },
    TimerStart,
    TimerPause,
    TimerReset,
    /// Without a month, the current local month is meant.
    StatsMonthly { year_month: Option<String> },
    StatsAccuracy { todo_id: Option<i64> },
}

pub open spec fn same_i64(a: Option<i64>, b: Option<int>) -> bool {
    match a {
        Some(x) => b == Some(x as int),
        None => b is None,
    }
}

/// Reads a `tools/call` by tool name. A missing `title` or `id` where one is
/// required, a blank title, and an unknown tool are refused with a message.
pub fn parse_tool_call(name: &str, args: &Value) -> (r: Result<ToolCall, String>)
    ensures
        name@ == "todo_list"@ ==> (r matches Ok(ToolCall::TodoList { tag, category })
            && opt_text(tag) == str_arg_of(*args, "tag"@) && opt_text(category) == str_arg_of(*args, "category"@)),
        name@ == "todo_create"@ ==> (str_arg_of(*args, "title"@) is None ==> (r matches Err(e) && e@ == "title is required"@)),
        name@ == "todo_create"@ ==> (str_arg_of(*args, "title"@) is Some && trimmed(str_arg_of(*args, "title"@)->0).len() == 0
            ==> (r matches Err(e) && e@ == "title must not be empty"@)),
        name@ == "todo_create"@ ==> (str_arg_of(*args, "title"@) is Some && trimmed(str_arg_of(*args, "title"@)->0).len() > 0
            ==> (r matches Ok(ToolCall::TodoCreate { title, target_count, category, tags })
            && title@ == trimmed(str_arg_of(*args, "title"@)->0)
            && same_i64(target_count, i64_arg_of(*args, "target_count"@))
            && opt_text(category) == str_arg_of(*args, "category"@)
            && tags@.map_values(|s: String| s@) == tags_arg_of(*args))),
        name@ == "todo_delete"@ ==> (i64_arg_of(*args, "id"@) is None ==> (r matches Err(e) && e@ == "id is required"@)),
        name@ == "todo_delete"@ ==> (i64_arg_of(*args, "id"@) is Some
            ==> (r matches Ok(ToolCall::TodoDelete { id }) && id == i64_arg_of(*args, "id"@)->0)),
        name@ == "todo_set_active"@ ==> (r matches Ok(ToolCall::TodoSetActive { todo_id }) && same_i64(todo_id, i64_arg_of(*args, "id"@))),
        name@ == "timer_start"@ ==> r matches Ok(ToolCall::TimerStart),
        name@ == "timer_pause"@ ==> r matches Ok(ToolCall::TimerPause),
        name@ == "timer_reset"@ ==> r matches Ok(ToolCall::TimerReset),
        name@ == "stats_monthly"@ ==> (r matches Ok(ToolCall::StatsMonthly { year_month })
            && opt_text(year_month) == str_arg_of(*args, "year_month"@)),
        name@ == "stats_accuracy"@ ==> (r matches Ok(ToolCall::StatsAccuracy { todo_id })
            && same_i64(todo_id, i64_arg_of(*args, "todo_id"@))),
        !known_tool(name@) ==> (r matches Err(e) && e@ == "unknown tool: "@ + name@),
{
    proof {
        reveal_strlit("todo_list");
        reveal_strlit("todo_create");
        reveal_strlit("todo_delete");
        reveal_strlit("todo_set_active");
        reveal_strlit("timer_start");
        reveal_strlit("timer_pause");
        reveal_strlit("timer_reset");
        reveal_strlit("stats_monthly");
        reveal_strlit("stats_accuracy");
        assert("todo_create"@[5] == 'c' && "todo_delete"@[5] == 'd' && "timer_start"@[6] == 's'
            && "timer_pause"@[6] == 'p' && "timer_reset"@[6] == 'r' && "todo_create"@[1] == 'o'
            && "todo_delete"@[1] == 'o' && "timer_start"@[1] == 'i' && "timer_pause"@[1] == 'i'
            && "timer_reset"@[1] == 'i');
        assert("todo_list"@.len() == 9 && "todo_create"@.len() == 11 && "todo_delete"@.len() == 11
            && "todo_set_active"@.len() == 15 && "timer_start"@.len() == 11 && "timer_pause"@.len() == 11
            && "timer_reset"@.len() == 11 && "stats_monthly"@.len() == 13 && "stats_accuracy"@.len() == 14);
    }
    if str_eq(name, "todo_list") {
        Ok(ToolCall::TodoList { tag: str_arg(args, "tag"), category: str_arg(args, "category") })
    } else if str_eq(name, "todo_create") {
        let title = match str_arg(args, "title") {
            Some(t) => t,
            None => { return Err(String::from_str("title is required")); },
        };
        let cs = chars_of(title.as_str());
        let (from, to) = trim_bounds(&cs, 0, cs.len());
        proof {
            assert(cs@.subrange(0, cs@.len() as int) == cs@);
        }
        if from == to {
            return Err(String::from_str("title must not be empty"));
        }
        let trimmed_title = string_of_range(&cs, from, to);
        Ok(ToolCall::TodoCreate {
            title: trimmed_title,
            target_count: i64_arg(args, "target_count"),
            category: str_arg(args, "category"),
            tags: tags_arg(args),
        })
    } else if str_eq(name, "todo_delete") {
        match i64_arg(args, "id") {
            Some(id) => Ok(ToolCall::TodoDelete { id }),
            None => Err(String::from_str("id is required")),
        }
    } else if str_eq(name, "todo_set_active") {
        Ok(ToolCall::TodoSetActive { todo_id: i64_arg(args, "id") })
    } else if str_eq(name, "timer_start") {
        Ok(ToolCall::TimerStart)
    } else if str_eq(name, "timer_pause") {
        Ok(ToolCall::TimerPause)
    } else if str_eq(name, "timer_reset") {
        Ok(ToolCall::TimerReset)
    } else if str_eq(name, "stats_monthly") {
        Ok(ToolCall::StatsMonthly { year_month: str_arg(args, "year_month") })
    } else if str_eq(name, "stats_accuracy") {
        Ok(ToolCall::StatsAccuracy { todo_id: i64_arg(args, "todo_id") })
    } else {
        let mut message = String::from_str("unknown tool: ");
        push_str(&mut message, name);
        Err(message)
    }
}

pub open spec fn known_tool(name: Seq<char>) -> bool {
    name == "todo_list"@ || name == "todo_create"@ || name == "todo_delete"@ || name == "todo_set_active"@
        || name == "timer_start"@ || name == "timer_pause"@ || name == "timer_reset"@
        || name == "stats_monthly"@ || name == "stats_accuracy"@
}

/// The `tools/call` result of a tool's outcome: its value, or a flagged error.
pub fn call(outcome: Result<Value, String>) -> (v: Value)
    ensures
        outcome matches Ok(x) ==> v == x,
        outcome matches Err(m) ==> v == crate::json::json_map(
            seq![("content"@, text_content(m@)), ("isError"@, crate::json::json_flag(true))],
        ),
{
    match outcome {
        Ok(value) => value,
        Err(message) => tool_error(message.as_str()),
    }
}

/// `deleted todo <id>`.
pub fn deleted_message(id: i64) -> (s: String)
    ensures
        s@ == "deleted todo "@ + signed_decimal(id as int),
{
    let mut s = String::from_str("deleted todo ");
    push_signed_padded(&mut s, id, 0);
    s
}

/// `todo <id> is now active`, or `cleared the active todo`.
pub fn active_message(id: Option<i64>) -> (s: String)
    ensures
        id matches Some(n) ==> s@ == "todo "@ + signed_decimal(n as int) + " is now active"@,
        id is None ==> s@ == "cleared the active todo"@,
{
    match id {
        Some(n) => {
            let mut s = String::from_str("todo ");
            push_signed_padded(&mut s, n, 0);
            push_str(&mut s, " is now active");
            s
        },
        None => String::from_str("cleared the active todo"),
    }
}

/// `{"type": t}`
pub open spec fn typed(t: Seq<char>) -> Value {
    json_map(seq![("type"@, json_text(t))])
}

/// `{"type": t, "description": d}`
pub open spec fn typed_described(t: Seq<char>, d: Seq<char>) -> Value {
    json_map(seq![("type"@, json_text(t)), ("description"@, json_text(d))])
}

/// An object schema with these properties.
pub open spec fn object_schema(properties: Value) -> Value {
    json_map(seq![("type"@, json_text("object"@)), ("properties"@, properties)])
}

/// An object schema with these properties, of which `required` must be present.
pub open spec fn object_schema_requiring(properties: Value, required: Seq<char>) -> Value {
    json_map(seq![
        ("type"@, json_text("object"@)),
        ("properties"@, properties),
        ("required"@, json_list(seq![json_text(required)])),
    ])
}

pub open spec fn tool_definition(name: Seq<char>, description: Seq<char>, schema: Value) -> Value {
    json_map(seq![("name"@, json_text(name)), ("description"@, json_text(description)), ("inputSchema"@, schema)])
}

pub open spec fn todo_list_definition() -> Value {
    tool_definition(
        "todo_list"@,
        "List Cycl todos with their tags, timing category, pomodoro count and focus time. Optionally filter by tag name or timing category."@,
        object_schema(json_map(seq![
            ("tag"@, typed_described("string"@, "Only todos carrying this tag name."@)),
            ("category"@, typed_described("string"@, "Only todos in this timing category key (e.g. today, someday)."@)),
        ])),
    )
}

pub open spec fn todo_create_definition() -> Value {
    tool_definition(
        "todo_create"@,
        "Create a todo. Tags are attached by name and created if they don't exist yet."@,
        object_schema_requiring(json_map(seq![
            ("title"@, typed("string"@)),
            ("target_count"@, typed_described("integer"@, "Estimated number of pomodoros."@)),
            ("category"@, typed_described("string"@, "Timing category key. Defaults to someday."@)),
            ("tags"@, json_map(seq![("type"@, json_text("array"@)), ("items"@, typed("string"@))])),
        ]), "title"@),
    )
}

pub open spec fn todo_delete_definition() -> Value {
    tool_definition(
        "todo_delete"@,
        "Delete a todo by id."@,
        object_schema_requiring(json_map(seq![("id"@, typed("integer"@))]), "id"@),
    )
}

pub open spec fn todo_set_active_definition() -> Value {
    tool_definition(
        "todo_set_active"@,
        "Set which todo the timer is currently working on. Pass null to clear."@,
        object_schema(json_map(seq![
            ("id"@, json_map(seq![("type"@, json_list(seq![json_text("integer"@), json_text("null"@)]))])),
        ])),
    )
}

pub open spec fn no_argument_tool(name: Seq<char>, description: Seq<char>) -> Value {
    tool_definition(name, description, object_schema(json_map(seq![])))
}

pub open spec fn stats_monthly_definition() -> Value {
    tool_definition(
        "stats_monthly"@,
        "Monthly focus summary: total focus time, completed sessions, average interruptions per session and average estimate accuracy."@,
        object_schema(json_map(seq![
            ("year_month"@, typed_described("string"@, "Month as YYYY-MM. Defaults to the current month."@)),
        ])),
    )
}

pub open spec fn stats_accuracy_definition() -> Value {
    tool_definition(
        "stats_accuracy"@,
        "Estimate-accuracy log: estimated vs actual pomodoros per completed todo, with a 0..1 accuracy score."@,
        object_schema(json_map(seq![("todo_id"@, typed_described("integer"@, "Limit to one todo."@))])),
    )
}

/// The `tools/list` answer: every tool with its description and argument schema.
pub open spec fn definitions_value() -> Value {
    json_list(seq![
        todo_list_definition(),
        todo_create_definition(),
        todo_delete_definition(),
        todo_set_active_definition(),
        no_argument_tool("timer_start"@, "Start (or resume) the pomodoro timer."@),
        no_argument_tool("timer_pause"@, "Pause the pomodoro timer, recording elapsed focus time."@),
        no_argument_tool("timer_reset"@, "Reset the current phase of the pomodoro timer back to its full duration."@),
        stats_monthly_definition(),
        stats_accuracy_definition(),
    ])
}

fn typed_value(t: &str) -> (v: Value)
    ensures
        v == typed(t@),
{
    object1("type", json_string(t))
}

fn typed_described_value(t: &str, d: &str) -> (v: Value)
    ensures
        v == typed_described(t@, d@),
{
    object2("type", json_string(t), "description", json_string(d))
}

fn schema_value(properties: Value) -> (v: Value)
    ensures
        v == object_schema(properties),
{
    object2("type", json_string("object"), "properties", properties)
}

fn schema_requiring_value(properties: Value, required: &str) -> (v: Value)
    ensures
        v == object_schema_requiring(properties, required@),
{
    object3("type", json_string("object"), "properties", properties, "required", array1(json_string(required)))
}

fn definition_value(name: &str, description: &str, schema: Value) -> (v: Value)
    ensures
        v == tool_definition(name@, description@, schema),
{
    object3("name", json_string(name), "description", json_string(description), "inputSchema", schema)
}

/// The tools offered, for `tools/list`.
pub fn definitions() -> (v: Value)
    ensures
        v == definitions_value(),
{
    let mut tools: Vec<Value> = Vec::new();
    tools.push(definition_value(
        "todo_list",
        "List Cycl todos with their tags, timing category, pomodoro count and focus time. Optionally filter by tag name or timing category.",
        schema_value(object2(
            "tag", typed_described_value("string", "Only todos carrying this tag name."),
            "category", typed_described_value("string", "Only todos in this timing category key (e.g. today, someday)."),
        )),
    ));
    tools.push(definition_value(
        "todo_create",
        "Create a todo. Tags are attached by name and created if they don't exist yet.",
        schema_requiring_value(object4(
            "title", typed_value("string"),
            "target_count", typed_described_value("integer", "Estimated number of pomodoros."),
            "category", typed_described_value("string", "Timing category key. Defaults to someday."),
            "tags", object2("type", json_string("array"), "items", typed_value("string")),
        ), "title"),
    ));
    tools.push(definition_value(
        "todo_delete",
        "Delete a todo by id.",
        schema_requiring_value(object1("id", typed_value("integer")), "id"),
    ));
    tools.push(definition_value(
        "todo_set_active",
        "Set which todo the timer is currently working on. Pass null to clear.",
        schema_value(object1("id", object1("type", array2(json_string("integer"), json_string("null"))))),
    ));
    tools.push(definition_value("timer_start", "Start (or resume) the pomodoro timer.", schema_value(object0())));
    tools.push(definition_value(
        "timer_pause",
        "Pause the pomodoro timer, recording elapsed focus time.",
        schema_value(object0()),
    ));
    tools.push(definition_value(
        "timer_reset",
        "Reset the current phase of the pomodoro timer back to its full duration.",
        schema_value(object0()),
    ));
    tools.push(definition_value(
        "stats_monthly",
        "Monthly focus summary: total focus time, completed sessions, average interruptions per session and average estimate accuracy.",
        schema_value(object1(
            "year_month", typed_described_value("string", "Month as YYYY-MM. Defaults to the current month."),
        )),
    ));
    tools.push(definition_value(
        "stats_accuracy",
        "Estimate-accuracy log: estimated vs actual pomodoros per completed todo, with a 0..1 accuracy score.",
        schema_value(object1("todo_id", typed_described_value("integer", "Limit to one todo."))),
    ));
    let v = json_array(tools);
    proof {
        assert(tools@ =~= seq![
            todo_list_definition(),
            todo_create_definition(),
            todo_delete_definition(),
            todo_set_active_definition(),
            no_argument_tool("timer_start"@, "Start (or resume) the pomodoro timer."@),
            no_argument_tool("timer_pause"@, "Pause the pomodoro timer, recording elapsed focus time."@),
            no_argument_tool("timer_reset"@, "Reset the current phase of the pomodoro timer back to its full duration."@),
            stats_monthly_definition(),
            stats_accuracy_definition(),
        ]);
    }
    v
}

} // verus!
