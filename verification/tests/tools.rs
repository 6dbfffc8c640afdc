use cycl::tools::{active_message, call, definitions, deleted_message, i64_arg, parse_tool_call, str_arg, ToolCall};
use serde_json::Value;

fn args(pairs: &[(&str, Value)]) -> Value {
    let mut map = serde_json::Map::new();
    for (k, v) in pairs {
        map.insert(k.to_string(), v.clone());
    }
    Value::Object(map)
}

#[test]
fn arguments_are_read_by_type() {
    let a = args(&[("name", Value::from("x")), ("n", Value::from(5)), ("s", Value::from("5"))]);
    assert_eq!(str_arg(&a, "name"), Some("x".to_string()));
    assert_eq!(str_arg(&a, "n"), None);
    assert_eq!(i64_arg(&a, "n"), Some(5));
    assert_eq!(i64_arg(&a, "s"), None);
    assert_eq!(i64_arg(&a, "missing"), None);
}

#[test]
fn todo_create_needs_a_non_blank_title() {
    match parse_tool_call("todo_create", &args(&[])) {
        Err(e) => assert_eq!(e, "title is required"),
        Ok(_) => panic!("accepted a todo without a title"),
    }
    match parse_tool_call("todo_create", &args(&[("title", Value::from("   "))])) {
        Err(e) => assert_eq!(e, "title must not be empty"),
        Ok(_) => panic!("accepted a blank title"),
    }
    let tags = Value::Array(vec![Value::from("work"), Value::from(3), Value::from("deep")]);
    let call = parse_tool_call(
        "todo_create",
        &args(&[("title", Value::from("  write docs ")), ("target_count", Value::from(3)), ("tags", tags)]),
    );
    match call {
        Ok(ToolCall::TodoCreate { title, target_count, category, tags }) => {
            assert_eq!(title, "write docs");
            assert_eq!(target_count, Some(3));
            assert_eq!(category, None);
            assert_eq!(tags, vec!["work".to_string(), "deep".to_string()]);
        },
        _ => panic!("todo_create was not read"),
    }
}

#[test]
fn todo_delete_needs_an_id_and_unknown_tools_are_refused() {
    match parse_tool_call("todo_delete", &args(&[])) {
        Err(e) => assert_eq!(e, "id is required"),
        Ok(_) => panic!("accepted a delete without id"),
    }
    assert!(matches!(parse_tool_call("todo_delete", &args(&[("id", Value::from(9))])), Ok(ToolCall::TodoDelete { id: 9 })));
    match parse_tool_call("launch", &args(&[])) {
        Err(e) => assert_eq!(e, "unknown tool: launch"),
        Ok(_) => panic!("accepted an unknown tool"),
    }
    assert!(matches!(parse_tool_call("timer_pause", &Value::Null), Ok(ToolCall::TimerPause)));
    assert!(matches!(
        parse_tool_call("todo_set_active", &args(&[("id", Value::Null)])),
        Ok(ToolCall::TodoSetActive { todo_id: None })
    ));
}

#[test]
fn tool_messages() {
    assert_eq!(deleted_message(12), "deleted todo 12");
    assert_eq!(active_message(Some(4)), "todo 4 is now active");
    assert_eq!(active_message(None), "cleared the active todo");
}

#[test]
fn failed_tools_answer_with_a_flagged_error() {
    let v = call(Err("boom".to_string()));
    assert_eq!(v["isError"], true);
    assert_eq!(v["content"][0]["text"], "boom");
    let ok = call(Ok(Value::from(1)));
    assert_eq!(ok, Value::from(1));
}

#[test]
fn definitions_list_every_tool() {
    let defs = definitions();
    let names: Vec<&str> = defs.as_array().unwrap().iter().map(|d| d["name"].as_str().unwrap()).collect();
    assert_eq!(
        names,
        vec![
            "todo_list", "todo_create", "todo_delete", "todo_set_active", "timer_start", "timer_pause",
            "timer_reset", "stats_monthly", "stats_accuracy"
        ]
    );
    assert_eq!(defs[1]["inputSchema"]["required"][0], "title");
    assert_eq!(defs[3]["inputSchema"]["properties"]["id"]["type"][1], "null");
}
