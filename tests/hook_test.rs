use hook_test::bench::{summarize, BenchError, BenchRun, BenchStep, SIMULATED_DELAY_MS};
use hook_test::event::{
    benchmark_event, build_event, build_tool_input, invocation_code, invocation_event, session_id,
    TodoItem, ToolEvent, ToolInput,
};
use hook_test::invoke::{
    envelope, hook_outcome, invocation_start, invocation_step, HookError, InvokeAction, InvokeEvent,
    InvokeState,
};
use hook_test::json::{find_member, Json};
use hook_test::response::{classify, Classification, HookResponse};
use hook_test::text::{str_equals, text_of_i64};

fn s(t: &str) -> String {
    t.to_string()
}

fn obj(fields: Vec<(&str, Json)>) -> Json {
    Json::Obj(fields.into_iter().map(|(k, v)| (k.to_string(), v)).collect())
}

fn jstr(t: &str) -> Json {
    Json::Str(t.to_string())
}

#[test]
fn edit_input_uses_template_and_placeholder() {
    let input = build_tool_input("Edit", None, None);
    assert_eq!(
        input,
        ToolInput::Edit {
            file_path: s("test.rs"),
            old_string: s("fn old() {}"),
            new_string: s("fn new() { /* TODO: implement */ }"),
        }
    );
}

#[test]
fn edit_input_takes_file_and_code() {
    let input = build_tool_input("Edit", Some(s("src/lib.rs")), Some(s("let x = 1;")));
    assert_eq!(
        input,
        ToolInput::Edit {
            file_path: s("src/lib.rs"),
            old_string: s("fn old() {}"),
            new_string: s("let x = 1;"),
        }
    );
}

#[test]
fn write_input_has_literal_content() {
    let input = build_tool_input("Write", Some(s("a.rs")), Some(s("ignored")));
    assert_eq!(
        input,
        ToolInput::Write {
            file_path: s("a.rs"),
            content: s("fn main() {\n    println!(\"test\");\n}"),
        }
    );
    let placeholder = build_tool_input("Write", None, None);
    assert!(matches!(placeholder, ToolInput::Write { ref file_path, .. } if file_path == "test.rs"));
}

#[test]
fn todo_write_input_is_fixed_list() {
    let input = build_tool_input("TodoWrite", Some(s("x.rs")), Some(s("code")));
    assert_eq!(
        input,
        ToolInput::TodoWrite {
            todos: vec![
                TodoItem { content: s("Implement feature"), status: s("pending") },
                TodoItem { content: s("Write tests"), status: s("pending") },
            ],
        }
    );
}

#[test]
fn unknown_tool_input_is_empty() {
    assert_eq!(build_tool_input("Bash", Some(s("x.rs")), None), ToolInput::Other);
    assert_eq!(build_tool_input("edit", None, None), ToolInput::Other);
    assert_eq!(build_tool_input("", None, None), ToolInput::Other);
    let event = build_event("Bash", None, None, s("id"), s("/w"));
    assert_eq!(event.to_json().get("tool_input"), Some(&Json::Obj(vec![])));
}

#[test]
fn build_event_keeps_ids() {
    let event = build_event("Edit", None, None, s("test-1"), s("/work"));
    assert_eq!(event.session_id, "test-1");
    assert_eq!(event.tool_name, "Edit");
    assert_eq!(event.cwd, "/work");
}

#[test]
fn decimal_text_of_integers() {
    assert_eq!(text_of_i64(0), "0");
    assert_eq!(text_of_i64(7), "7");
    assert_eq!(text_of_i64(12345), "12345");
    assert_eq!(text_of_i64(-42), "-42");
    assert_eq!(text_of_i64(i64::MAX), i64::MAX.to_string());
    assert_eq!(text_of_i64(i64::MIN), i64::MIN.to_string());
}

#[test]
fn session_ids_append_timestamp() {
    assert_eq!(session_id("test-", 1700000000), "test-1700000000");
    assert_eq!(session_id("bench-", 3), "bench-3");
    assert_eq!(session_id("invoke-", 0), "invoke-0");
    assert_eq!(session_id("test-", -5), "test--5");
}

#[test]
fn strings_compare_by_characters() {
    assert!(str_equals("Edit", "Edit"));
    assert!(!str_equals("Edit", "Edits"));
    assert!(!str_equals("Edit", "Exit"));
    assert!(str_equals("", ""));
}

#[test]
fn invocation_code_prefers_code_then_file() {
    assert_eq!(invocation_code(Some(s("c")), true, Some(s("f"))), "c");
    assert_eq!(invocation_code(None, true, Some(s("f"))), "f");
    assert_eq!(invocation_code(None, true, None), "// Could not read file");
    assert_eq!(invocation_code(None, false, None), "fn example() { /* test code */ }");
}

#[test]
fn invocation_event_replaces_nothing() {
    let event = invocation_event(s("invoke-1"), s("fn f() {}"), None, s("/w"));
    assert_eq!(
        event.tool_input,
        ToolInput::Edit { file_path: s("test.rs"), old_string: s(""), new_string: s("fn f() {}") }
    );
    assert_eq!(event.tool_name, "Edit");
}

fn round_trip(event: ToolEvent) {
    let encoded = event.to_json();
    assert_eq!(ToolEvent::from_json(&encoded), Some(event));
}

#[test]
fn round_trip_every_tool_kind() {
    for tool in ["Edit", "Write", "TodoWrite", "Bash"] {
        round_trip(build_event(tool, None, None, s("test-9"), s("/w")));
        round_trip(build_event(tool, Some(s("p.rs")), Some(s("code \"q\"\n")), s("x"), s(".")));
    }
    round_trip(invocation_event(s("i"), s(""), Some(s("f.rs")), s("/")));
    round_trip(benchmark_event(12, s("/tmp")));
}

#[test]
fn event_object_has_expected_members() {
    let encoded = build_event("Write", Some(s("w.rs")), None, s("sid"), s("/c")).to_json();
    assert_eq!(encoded.get("session_id"), Some(&jstr("sid")));
    assert_eq!(encoded.get("tool_name"), Some(&jstr("Write")));
    assert_eq!(encoded.get("cwd"), Some(&jstr("/c")));
    let input = encoded.get("tool_input").unwrap();
    assert_eq!(input.get("file_path"), Some(&jstr("w.rs")));
    assert_eq!(input.get("content"), Some(&jstr("fn main() {\n    println!(\"test\");\n}")));
}

#[test]
fn decoding_rejects_wrong_schema() {
    let edit_without_new = obj(vec![
        ("session_id", jstr("s")),
        ("tool_name", jstr("Edit")),
        ("tool_input", obj(vec![("file_path", jstr("a")), ("old_string", jstr("b"))])),
        ("cwd", jstr(".")),
    ]);
    assert_eq!(ToolEvent::from_json(&edit_without_new), None);
    let missing_cwd = obj(vec![
        ("session_id", jstr("s")),
        ("tool_name", jstr("Bash")),
        ("tool_input", obj(vec![])),
    ]);
    assert_eq!(ToolEvent::from_json(&missing_cwd), None);
    assert_eq!(ToolEvent::from_json(&Json::Null), None);
}

#[test]
fn first_member_wins() {
    let fields = vec![(s("a"), Json::Bool(true)), (s("b"), Json::Null), (s("a"), Json::Bool(false))];
    assert_eq!(find_member(&fields, "a"), Some(0));
    assert_eq!(find_member(&fields, "b"), Some(1));
    assert_eq!(find_member(&fields, "c"), None);
}

#[test]
fn envelope_wraps_stage_and_input() {
    let wrapped = envelope("plan", obj(vec![("k", Json::Bool(true))]));
    assert_eq!(
        wrapped,
        obj(vec![("stage", jstr("plan")), ("hook_input", obj(vec![("k", Json::Bool(true))]))])
    );
}

#[test]
fn benchmark_envelope_uses_code_stage() {
    let wrapped = hook_test::bench::benchmark_envelope(4, s("/w"));
    assert_eq!(wrapped.get("stage"), Some(&jstr("code")));
    let input = wrapped.get("hook_input").unwrap();
    assert_eq!(input.get("session_id"), Some(&jstr("bench-4")));
    let event = ToolEvent::from_json(input).unwrap();
    assert_eq!(event, benchmark_event(4, s("/w")));
}

#[test]
fn successful_hook_returns_its_output() {
    let text = s("{\"continue\":true,\"systemMessage\":\"ok\"}");
    let out = hook_outcome(true, text.clone(), s("noise"));
    assert_eq!(out, Ok(text.clone()));
    let parsed = obj(vec![("continue", Json::Bool(true)), ("systemMessage", jstr("ok"))]);
    assert_eq!(
        classify(text, Some(parsed)),
        Classification::Decision { should_continue: true, message_lines: Some(vec![s("ok")]) }
    );
}

#[test]
fn failed_hook_reports_stderr() {
    let out = hook_outcome(false, s("partial"), s("boom"));
    assert_eq!(out, Err(HookError::Failed(s("boom"))));
    let message = out.unwrap_err().message();
    assert!(message.contains("boom"));
    assert_eq!(message, "Hook failed: boom");
}

#[test]
fn error_messages_name_the_step() {
    assert_eq!(HookError::Spawn(s("not found")).message(), "Failed to start Python: not found");
    assert_eq!(HookError::Write(s("broken pipe")).message(), "Failed to write to stdin: broken pipe");
    assert_eq!(HookError::Wait(s("x")).message(), "Failed to wait for process: x");
}

#[test]
fn malformed_output_is_passed_through() {
    let raw = s("this is {not json");
    assert_eq!(classify(raw.clone(), None), Classification::Unparsed(raw.clone()));
    let wrong_shape = obj(vec![("continue", jstr("yes"))]);
    let numeric = obj(vec![("continue", Json::Number(s("1")))]);
    assert_eq!(classify(raw.clone(), Some(numeric)), Classification::Unparsed(raw.clone()));
    let bad_message = obj(vec![("continue", Json::Bool(true)), ("systemMessage", Json::Number(s("3")))]);
    assert_eq!(classify(raw.clone(), Some(bad_message)), Classification::Unparsed(raw.clone()));
    assert_eq!(classify(raw.clone(), Some(wrong_shape)), Classification::Unparsed(raw.clone()));
    assert_eq!(classify(raw.clone(), Some(Json::Arr(vec![]))), Classification::Unparsed(raw));
}

#[test]
fn blocked_verdict_and_message_lines() {
    let parsed = obj(vec![("continue", Json::Bool(false)), ("systemMessage", jstr("a\nb\r\nc\n"))]);
    assert_eq!(
        classify(s("raw"), Some(parsed)),
        Classification::Decision {
            should_continue: false,
            message_lines: Some(vec![s("a"), s("b"), s("c")]),
        }
    );
    let no_message = obj(vec![("continue", Json::Bool(true)), ("systemMessage", Json::Null)]);
    assert_eq!(
        classify(s("raw"), Some(no_message)),
        Classification::Decision { should_continue: true, message_lines: None }
    );
    let absent = obj(vec![("continue", Json::Bool(true))]);
    assert_eq!(
        classify(s("raw"), Some(absent)),
        Classification::Decision { should_continue: true, message_lines: None }
    );
}

#[test]
fn response_round_trip() {
    let verdicts = [
        HookResponse { should_continue: true, system_message: Some(s("fine")) },
        HookResponse { should_continue: false, system_message: None },
        HookResponse::simulated(),
    ];
    for v in verdicts {
        let encoded = v.to_json();
        assert_eq!(HookResponse::from_json(&encoded), Some(v));
    }
    let simulated = HookResponse::simulated();
    assert!(simulated.should_continue);
    assert_eq!(simulated.system_message, Some(s("[자기검열-code] ✅ 검토 통과")));
}

#[test]
fn simulated_benchmark_of_five() {
    let mut run = BenchRun::new(5, false);
    let mut steps = 0;
    while let BenchStep::Sleep { millis } = run.next_step() {
        assert_eq!(millis, SIMULATED_DELAY_MS);
        run.record(millis * 1_000_000 + 100_000, true);
        steps += 1;
    }
    assert_eq!(steps, 5);
    assert!(run.is_finished());
    assert_eq!(run.next_step(), BenchStep::Finished);
    assert_eq!(run.samples().len(), 5);
    let total = 5 * 50_600_000u64;
    assert!(total >= 5 * SIMULATED_DELAY_MS * 1_000_000);
    let stats = run.summary(total).unwrap();
    assert_eq!(stats.iterations, 5);
    assert_eq!(stats.failures, 0);
    assert_eq!(stats.mean_nanos, 50_600_000);
    assert_eq!(stats.min_nanos, 50_100_000);
    assert_eq!(stats.max_nanos, 50_100_000);
    assert_eq!(stats.mean_millis(), 50);
    assert_eq!(stats.throughput_milli(), Some(20_000));
}

#[test]
fn live_benchmark_counts_failures() {
    let mut run = BenchRun::new(3, true);
    assert_eq!(run.next_step(), BenchStep::Invoke { iteration: 1 });
    run.record(3_000_000, true);
    assert_eq!(run.next_step(), BenchStep::Invoke { iteration: 2 });
    run.record(9_000_000, false);
    assert_eq!(run.next_step(), BenchStep::Invoke { iteration: 3 });
    run.record(1_500_000, true);
    assert_eq!(run.next_step(), BenchStep::Finished);
    let stats = run.summary(14_000_000).unwrap();
    assert_eq!(stats.failures, 1);
    assert_eq!(stats.iterations, 3);
    assert_eq!(stats.min_nanos, 1_500_000);
    assert_eq!(stats.max_nanos, 9_000_000);
    assert_eq!(stats.mean_nanos, 4_666_666);
    assert_eq!(stats.throughput_milli(), Some(250_000));
}

#[test]
fn empty_benchmark_fails_cleanly() {
    let run = BenchRun::new(0, false);
    assert!(run.is_finished());
    assert_eq!(run.next_step(), BenchStep::Finished);
    assert_eq!(run.summary(0), Err(BenchError::NoIterations));
    assert_eq!(summarize(&vec![], 123, 0), Err(BenchError::NoIterations));
}

#[test]
fn sub_millisecond_mean_has_no_throughput() {
    let stats = summarize(&vec![400_000, 200_000], 900_000, 0).unwrap();
    assert_eq!(stats.mean_nanos, 450_000);
    assert_eq!(stats.mean_millis(), 0);
    assert_eq!(stats.throughput_milli(), None);
}

#[test]
fn invocation_writes_before_waiting() {
    let (state, action) = invocation_start();
    assert_eq!(state, InvokeState::Start);
    assert_eq!(action, InvokeAction::Spawn);
    let (state, action) = invocation_step(state, InvokeEvent::Spawned);
    assert_eq!(action, InvokeAction::WriteAndClose);
    let (state, action) = invocation_step(state, InvokeEvent::InputWritten);
    assert_eq!(action, InvokeAction::Wait);
    let text = s("{\"continue\":true,\"systemMessage\":\"ok\"}");
    let (state, action) = invocation_step(
        state,
        InvokeEvent::Exited { success: true, stdout: text.clone(), stderr: s("") },
    );
    assert_eq!(state, InvokeState::Done);
    assert_eq!(action, InvokeAction::Finish(Ok(text)));
}

#[test]
fn invocation_failures_end_at_once() {
    let (_, action) = invocation_step(InvokeState::Start, InvokeEvent::SpawnFailed(s("not found")));
    assert_eq!(action, InvokeAction::Finish(Err(HookError::Spawn(s("not found")))));
    let (state, action) =
        invocation_step(InvokeState::Started, InvokeEvent::WriteFailed(s("broken pipe")));
    assert_eq!(state, InvokeState::Done);
    assert_eq!(action, InvokeAction::Finish(Err(HookError::Write(s("broken pipe")))));
    let (_, action) = invocation_step(InvokeState::InputClosed, InvokeEvent::WaitFailed(s("w")));
    assert_eq!(action, InvokeAction::Finish(Err(HookError::Wait(s("w")))));
    let (_, action) = invocation_step(
        InvokeState::InputClosed,
        InvokeEvent::Exited { success: false, stdout: s(""), stderr: s("boom") },
    );
    match action {
        InvokeAction::Finish(Err(e)) => assert!(e.message().contains("boom")),
        other => panic!("unexpected action {:?}", other),
    }
}

#[test]
fn message_line_endings() {
    let lines_of = |m: &str| match classify(
        s("raw"),
        Some(obj(vec![("continue", Json::Bool(true)), ("systemMessage", jstr(m))])),
    ) {
        Classification::Decision { message_lines: Some(ls), .. } => ls,
        other => panic!("unexpected {:?}", other),
    };
    assert_eq!(lines_of("ok"), vec![s("ok")]);
    assert_eq!(lines_of(""), Vec::<String>::new());
    assert_eq!(lines_of("\n"), vec![s("")]);
    assert_eq!(lines_of("\r\n"), vec![s("")]);
    assert_eq!(lines_of("x\r"), vec![s("x\r")]);
    assert_eq!(lines_of("a\n\nb"), vec![s("a"), s(""), s("b")]);
}
