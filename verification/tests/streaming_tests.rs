use shai_http::event::{
    is_terminal_event, AgentEvent, ChatMessage, ChatMessageContent, PublicAgentState, StreamPhase,
    ToolCall, ToolResult,
};
use shai_http::formatter::ChatCompletionFormatter;
use shai_http::lifecycle::{CleanupAction, RequestLifecycle};
use shai_http::session::RequestSession;
use shai_http::streaming::{
    event_to_sse_stream, session_to_sse_stream, Delivery, Step, StreamAssembly,
};

fn call(name: &str) -> ToolCall {
    ToolCall { tool_name: name.to_string(), arguments: String::new() }
}

fn started(name: &str) -> AgentEvent {
    AgentEvent::ToolCallStarted { call: call(name) }
}

fn paused() -> AgentEvent {
    AgentEvent::StatusChanged {
        old_status: PublicAgentState::Running,
        new_status: PublicAgentState::Paused,
    }
}

fn completed(message: &str) -> AgentEvent {
    AgentEvent::Completed { success: true, message: message.to_string() }
}

#[test]
fn terminal_events_are_completion_error_and_pause() {
    assert!(is_terminal_event(&completed("x")));
    assert!(is_terminal_event(&AgentEvent::Completed { success: false, message: String::new() }));
    assert!(is_terminal_event(&AgentEvent::Error { error: "e".to_string() }));
    assert!(is_terminal_event(&paused()));
    assert!(!is_terminal_event(&AgentEvent::StatusChanged {
        old_status: PublicAgentState::Paused,
        new_status: PublicAgentState::Running,
    }));
    assert!(!is_terminal_event(&AgentEvent::StatusChanged {
        old_status: PublicAgentState::Running,
        new_status: PublicAgentState::Completed,
    }));
    assert!(!is_terminal_event(&started("t")));
    assert!(!is_terminal_event(&AgentEvent::ToolCallCompleted {
        call: call("t"),
        result: ToolResult::Denied,
    }));
    assert!(!is_terminal_event(&AgentEvent::ThinkingStart));
    assert!(!is_terminal_event(&AgentEvent::UserInput { input: "i".to_string() }));
    assert!(!is_terminal_event(&AgentEvent::BrainResult {
        thought: Ok(ChatMessage::Assistant {
            content: Some(ChatMessageContent::Text("t".to_string())),
        }),
    }));
}

#[test]
fn phase_machine_absorbs_after_a_terminal_event() {
    let p = StreamPhase::Running;
    assert!(!p.is_finished());
    let p = p.advance(&started("a"));
    assert_eq!(p, StreamPhase::Running);
    let p = p.advance(&paused());
    assert_eq!(p, StreamPhase::Paused);
    assert!(p.is_finished());
    let p = p.advance(&completed("x"));
    assert_eq!(p, StreamPhase::Paused);
    assert_eq!(StreamPhase::Running.advance(&completed("x")), StreamPhase::Completed);
    assert_eq!(
        StreamPhase::Running.advance(&AgentEvent::Error { error: "e".to_string() }),
        StreamPhase::Errored
    );
    assert_eq!(StreamPhase::Errored.advance(&started("a")), StreamPhase::Errored);
    assert_eq!(StreamPhase::Completed.advance(&paused()), StreamPhase::Completed);
}

#[test]
fn step_by_step_assembly() {
    let mut f = ChatCompletionFormatter::created_at("m".to_string(), 1);
    let mut a = StreamAssembly::new();
    assert!(!a.finished());
    assert_eq!(a.current_phase(), StreamPhase::Running);

    match a.on_delivery(&mut f, Delivery::Event(started("search")), "s") {
        Step::Emit(chunk) => assert_eq!(
            chunk.choices[0].delta.reasoning_content,
            Some("[toolcall: search]".to_string())
        ),
        other => panic!("expected an item, got {:?}", other),
    }
    assert!(matches!(
        a.on_delivery(&mut f, Delivery::Event(AgentEvent::ThinkingStart), "s"),
        Step::Skip
    ));
    assert!(!a.finished());

    match a.on_delivery(&mut f, Delivery::Event(completed("done")), "s") {
        Step::Emit(chunk) => {
            assert_eq!(chunk.choices[0].delta.content, Some("done".to_string()))
        }
        other => panic!("expected the final item, got {:?}", other),
    }
    assert!(a.finished());
    assert_eq!(a.current_phase(), StreamPhase::Completed);

    assert!(matches!(
        a.on_delivery(&mut f, Delivery::Event(started("late")), "s"),
        Step::Close
    ));
    assert!(matches!(
        a.on_delivery(&mut f, Delivery::Event(completed("again")), "s"),
        Step::Close
    ));
    assert_eq!(f.accumulated_text(), "done");
    assert_eq!(a.current_phase(), StreamPhase::Completed);
}

#[test]
fn pause_closes_at_once_because_it_formats_to_nothing() {
    let mut f = ChatCompletionFormatter::created_at("m".to_string(), 1);
    let mut a = StreamAssembly::new();
    assert!(matches!(a.on_delivery(&mut f, Delivery::Event(paused()), "s"), Step::Close));
    assert!(a.finished());
    assert_eq!(a.current_phase(), StreamPhase::Paused);
}

#[test]
fn lagged_or_closed_subscription_ends_the_stream() {
    let mut f = ChatCompletionFormatter::created_at("m".to_string(), 1);
    let mut a = StreamAssembly::new();
    assert!(matches!(a.on_delivery(&mut f, Delivery::Lagged(3), "s"), Step::Close));
    assert!(a.finished());
    assert_eq!(a.current_phase(), StreamPhase::Running);
    assert!(matches!(
        a.on_delivery(&mut f, Delivery::Event(started("late")), "s"),
        Step::Close
    ));

    let mut b = StreamAssembly::new();
    assert!(matches!(b.on_delivery(&mut f, Delivery::Closed, "s"), Step::Close));
    assert!(b.finished());
    assert!(matches!(b.on_delivery(&mut f, Delivery::Closed, "s"), Step::Close));
}

#[test]
fn serialisation_failure_skips_the_item_unless_the_stream_is_over() {
    let mut f = ChatCompletionFormatter::created_at("m".to_string(), 1);
    let mut a = StreamAssembly::new();
    match a.on_serialized(Some("{\"a\":1}".to_string())) {
        Step::Emit(text) => assert_eq!(text, "{\"a\":1}"),
        other => panic!("expected the text, got {:?}", other),
    }
    assert!(matches!(a.on_serialized(None), Step::Skip));
    let _ = a.on_delivery(&mut f, Delivery::Event(completed("x")), "s");
    assert!(matches!(a.on_serialized(None), Step::Close));
    match a.on_serialized(Some("last".to_string())) {
        Step::Emit(text) => assert_eq!(text, "last"),
        other => panic!("expected the text, got {:?}", other),
    }
}

#[test]
fn terminal_truncation_on_a_whole_run() {
    let events = vec![
        started("a"),
        AgentEvent::Error { error: "boom".to_string() },
        started("b"),
        completed("never"),
        started("c"),
    ];
    let mut f = ChatCompletionFormatter::created_at("m".to_string(), 1);
    let items = event_to_sse_stream(&events, &mut f, "s");
    assert_eq!(items.len(), 2);
    assert_eq!(items[0].choices[0].delta.reasoning_content, Some("[toolcall: a]".to_string()));
    assert_eq!(items[1].choices[0].delta.content, Some("Error: boom".to_string()));
    assert_eq!(f.accumulated_text(), "");

    let mut g = ChatCompletionFormatter::created_at("m".to_string(), 1);
    let cut: Vec<AgentEvent> = events.iter().take(2).cloned().collect();
    let same = event_to_sse_stream(&cut, &mut g, "s");
    assert_eq!(same.len(), items.len());
    for (x, y) in same.iter().zip(items.iter()) {
        assert_eq!(x.choices[0].delta.content, y.choices[0].delta.content);
        assert_eq!(x.choices[0].delta.reasoning_content, y.choices[0].delta.reasoning_content);
        assert_eq!(x.choices[0].finish_reason, y.choices[0].finish_reason);
    }
}

#[test]
fn run_without_terminal_event_formats_everything() {
    let events = vec![started("a"), AgentEvent::ThinkingStart, started("b")];
    let mut f = ChatCompletionFormatter::created_at("m".to_string(), 1);
    let items = event_to_sse_stream(&events, &mut f, "s");
    assert_eq!(items.len(), 2);
    assert_eq!(items[1].choices[0].delta.reasoning_content, Some("[toolcall: b]".to_string()));
    let none: Vec<AgentEvent> = Vec::new();
    assert!(event_to_sse_stream(&none, &mut f, "s").is_empty());
}

#[test]
fn scenario_error_with_ephemeral_guard_still_cleans_up() {
    let events = vec![AgentEvent::Error { error: "backend timeout".to_string() }];
    let mut f = ChatCompletionFormatter::created_at("m".to_string(), 1);
    let request = RequestSession { lifecycle: RequestLifecycle::new(true, "s".to_string()) };
    let (items, action) = session_to_sse_stream(request, &events, &mut f, "s");
    assert_eq!(items.len(), 1);
    assert_eq!(items[0].choices[0].delta.content, Some("Error: backend timeout".to_string()));
    assert_eq!(action, CleanupAction::CancelComputation);
}

#[test]
fn session_stream_of_persistent_session_leaves_it_alive() {
    let events = vec![completed("ok")];
    let mut f = ChatCompletionFormatter::created_at("m".to_string(), 1);
    let request = RequestSession { lifecycle: RequestLifecycle::new(false, "s".to_string()) };
    let (items, action) = session_to_sse_stream(request, &events, &mut f, "s");
    assert_eq!(items.len(), 1);
    assert_eq!(action, CleanupAction::Nothing);

    let mut used = RequestLifecycle::new(true, "s".to_string());
    assert_eq!(used.release(), CleanupAction::CancelComputation);
    let (_, again) = session_to_sse_stream(RequestSession { lifecycle: used }, &events, &mut f, "s");
    assert_eq!(again, CleanupAction::Nothing);
}

#[test]
fn scenario_tool_then_answer_step_by_step() {
    let mut f = ChatCompletionFormatter::created_at("m".to_string(), 1);
    let mut a = StreamAssembly::new();
    let events = vec![
        started("search"),
        AgentEvent::ToolCallCompleted {
            call: call("search"),
            result: ToolResult::Success { output: "Paris".to_string() },
        },
        AgentEvent::BrainResult {
            thought: Ok(ChatMessage::Assistant {
                content: Some(ChatMessageContent::Text("Paris is the capital".to_string())),
            }),
        },
        completed("Paris is the capital"),
    ];
    let mut thinking = 0;
    let mut content: Vec<String> = Vec::new();
    for event in events {
        match a.on_delivery(&mut f, Delivery::Event(event), "s") {
            Step::Emit(chunk) => match chunk.choices[0].delta.content.clone() {
                Some(text) => {
                    assert!(chunk.choices[0].finish_reason.is_some());
                    content.push(text);
                }
                None => {
                    assert!(chunk.choices[0].delta.reasoning_content.is_some());
                    assert!(chunk.choices[0].finish_reason.is_none());
                    assert!(content.is_empty());
                    thinking += 1;
                }
            },
            other => panic!("expected an item, got {:?}", other),
        }
    }
    assert_eq!(thinking, 3);
    assert_eq!(content, vec!["Paris is the capital".to_string()]);
    assert!(a.finished());
}
