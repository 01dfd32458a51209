use shai_http::event::{ChatMessage, ChatMessageContent, ChatMessageContentPart};
use shai_http::lifecycle::GuardState;
use shai_http::event::AgentError;
use shai_http::event_stream::EventStream;
use shai_http::session::{
    replay_inputs, user_text_of, AgentSession, ReplayStatus, Shutdown, TurnReplay,
};
use shai_http::streaming::Delivery;

fn user(text: &str) -> ChatMessage {
    ChatMessage::User { content: ChatMessageContent::Text(text.to_string()) }
}

#[test]
fn session_name_defaults() {
    let s = AgentSession::new("id-1".to_string(), None, true);
    assert_eq!(s.session_id(), "id-1");
    assert_eq!(s.agent_name(), "default");
    assert!(s.is_ephemeral());
    let t = AgentSession::new("id-2".to_string(), Some("coder".to_string()), false);
    assert_eq!(t.agent_name(), "coder");
    assert!(!t.is_ephemeral());
}

#[test]
fn cancel_twice_takes_effect_once_and_the_second_call_is_no_error() {
    let mut s = AgentSession::new("id".to_string(), None, false);
    assert!(!s.is_cancelled());
    assert!(s.cancel(Ok(())).is_ok());
    assert!(s.is_cancelled());
    assert!(s.cancel(Ok(())).is_ok());
    assert!(s.is_cancelled());
    assert_eq!(s.session_id(), "id");
    assert!(!s.is_ephemeral());
    assert_eq!(s.active_requests(), 0);
}

#[test]
fn refused_cancel_is_passed_on_and_a_later_one_still_counts() {
    let mut s = AgentSession::new("id".to_string(), None, false);
    match s.cancel(Err(AgentError::CancellationError("busy".to_string()))) {
        Err(AgentError::CancellationError(m)) => assert_eq!(m, "busy"),
        other => panic!("expected the agent's error, got {:?}", other),
    }
    assert!(!s.is_cancelled());
    assert!(s.cancel(Ok(())).is_ok());
    assert!(s.is_cancelled());
    match s.cancel(Err(AgentError::StreamError("late".to_string()))) {
        Err(AgentError::StreamError(m)) => assert_eq!(m, "late"),
        other => panic!("expected the agent's error, got {:?}", other),
    }
    assert!(s.is_cancelled());
}

#[test]
fn watch_starts_from_now() {
    let s = AgentSession::new("id".to_string(), None, false);
    let mut events = EventStream::new(8);
    assert!(events.publish(shai_http::event::AgentEvent::UserInput { input: "early".to_string() }));
    let first = s.watch(&mut events);
    assert!(events.next(first).is_none());
    assert!(events.publish(shai_http::event::AgentEvent::UserInput { input: "late".to_string() }));
    let second = s.watch(&mut events);
    assert_eq!((first, second), (0, 1));
    match events.next(first) {
        Some(Delivery::Event(shai_http::event::AgentEvent::UserInput { input })) => {
            assert_eq!(input, "late")
        }
        other => panic!("expected the later event, got {:?}", other),
    }
    assert!(events.next(first).is_none());
    assert!(events.next(second).is_none());
}

#[test]
fn shutdown_aborts_the_task_once() {
    let mut s = AgentSession::new("id".to_string(), None, true);
    let mut events = EventStream::new(4);
    assert_eq!(s.shutdown(&mut events), Shutdown { cancel_readers: false, abort_task: true });
    assert_eq!(s.shutdown(&mut events), Shutdown { cancel_readers: false, abort_task: false });
    assert_eq!(s.shutdown(&mut events), Shutdown { cancel_readers: false, abort_task: false });
    assert!(!s.is_cancelled());
}

#[test]
fn shutdown_ends_the_stream_for_its_readers() {
    let mut s = AgentSession::new("id".to_string(), None, false);
    let mut events = EventStream::new(4);
    let reader = s.watch(&mut events);
    assert!(events.publish(shai_http::event::AgentEvent::ThinkingStart));
    assert!(!events.is_closed());
    s.shutdown(&mut events);
    assert!(events.is_closed());
    assert!(matches!(
        events.next(reader),
        Some(Delivery::Event(shai_http::event::AgentEvent::ThinkingStart))
    ));
    assert!(matches!(events.next(reader), Some(Delivery::Closed)));
    assert!(matches!(events.next(reader), Some(Delivery::Closed)));
    assert!(!events.publish(shai_http::event::AgentEvent::ThinkingStart));
}

#[test]
fn shutdown_cancels_first_while_a_request_is_reading() {
    let mut s = AgentSession::new("id".to_string(), None, false);
    let replay = s.handle_request(&Vec::new());
    assert!(s.open_request(&replay).is_some());
    assert!(s.open_request(&replay).is_some());
    assert_eq!(s.active_requests(), 2);
    s.close_request();
    assert_eq!(s.active_requests(), 1);
    let mut events = EventStream::new(4);
    assert_eq!(s.shutdown(&mut events), Shutdown { cancel_readers: true, abort_task: true });
    assert!(!s.is_cancelled());
    assert_eq!(s.shutdown(&mut events), Shutdown { cancel_readers: false, abort_task: false });
}

#[test]
fn shutdown_does_not_cancel_twice_or_without_readers() {
    let mut cancelled = AgentSession::new("id".to_string(), None, false);
    let replay = cancelled.handle_request(&Vec::new());
    assert!(cancelled.open_request(&replay).is_some());
    assert!(cancelled.cancel(Ok(())).is_ok());
    let mut events = EventStream::new(4);
    assert_eq!(
        cancelled.shutdown(&mut events),
        Shutdown { cancel_readers: false, abort_task: true }
    );

    let mut idle = AgentSession::new("id".to_string(), None, false);
    let replay = idle.handle_request(&Vec::new());
    assert!(idle.open_request(&replay).is_some());
    idle.close_request();
    idle.close_request();
    assert_eq!(idle.active_requests(), 0);
    assert_eq!(idle.shutdown(&mut events), Shutdown { cancel_readers: false, abort_task: true });
}

#[test]
fn scenario_empty_turn_is_skipped() {
    let mut s = AgentSession::new("fresh".to_string(), None, true);
    let trace = vec![user("hello"), user("")];
    let mut replay = s.handle_request(&trace);
    let mut forwarded: Vec<String> = Vec::new();
    while let Some(text) = replay.next_input() {
        forwarded.push(text);
        assert!(replay.record(Ok(())).is_ok());
    }
    assert_eq!(forwarded, vec!["hello".to_string()]);
    assert_eq!(replay.status(), ReplayStatus::Done);
    let request = s.open_request(&replay).expect("the request is set up");
    assert!(request.lifecycle.owns());
    assert_eq!(request.lifecycle.session_id(), "fresh");
    assert_eq!(request.lifecycle.state(), GuardState::Pending);
    assert_eq!(s.active_requests(), 1);
}

#[test]
fn only_user_turns_are_replayed_in_order() {
    let trace = vec![
        ChatMessage::System { content: ChatMessageContent::Text("be brief".to_string()) },
        user("one"),
        ChatMessage::Assistant { content: Some(ChatMessageContent::Text("answer".to_string())) },
        ChatMessage::User { content: ChatMessageContent::Empty },
        ChatMessage::Tool {
            content: ChatMessageContent::Text("out".to_string()),
            tool_call_id: "c1".to_string(),
        },
        ChatMessage::Developer { content: ChatMessageContent::Text("dev".to_string()) },
        ChatMessage::User {
            content: ChatMessageContent::ContentPart(vec![
                ChatMessageContentPart::Text("two".to_string()),
                ChatMessageContentPart::Image("http://x/y.png".to_string()),
                ChatMessageContentPart::Text("three".to_string()),
                ChatMessageContentPart::Audio("data".to_string()),
            ]),
        },
        ChatMessage::User {
            content: ChatMessageContent::ContentPart(vec![ChatMessageContentPart::Image(
                "http://x/z.png".to_string(),
            )]),
        },
        user("four"),
    ];
    assert_eq!(
        replay_inputs(&trace),
        vec!["one".to_string(), "two\nthree".to_string(), "four".to_string()]
    );
    assert_eq!(replay_inputs(&Vec::new()), Vec::<String>::new());
}

#[test]
fn user_text_of_each_kind_of_content() {
    assert_eq!(user_text_of(&user("hi")), Some("hi".to_string()));
    assert_eq!(user_text_of(&user("")), Some(String::new()));
    assert_eq!(
        user_text_of(&ChatMessage::User { content: ChatMessageContent::Empty }),
        Some(String::new())
    );
    assert_eq!(
        user_text_of(&ChatMessage::User { content: ChatMessageContent::ContentPart(vec![]) }),
        Some(String::new())
    );
    assert_eq!(
        user_text_of(&ChatMessage::User {
            content: ChatMessageContent::ContentPart(vec![
                ChatMessageContentPart::Text("a".to_string()),
                ChatMessageContentPart::Text(String::new()),
                ChatMessageContentPart::Text("b".to_string()),
            ]),
        }),
        Some("a\n\nb".to_string())
    );
    assert_eq!(
        user_text_of(&ChatMessage::User {
            content: ChatMessageContent::ContentPart(vec![
                ChatMessageContentPart::Image("i".to_string()),
                ChatMessageContentPart::Text("only".to_string()),
            ]),
        }),
        Some("only".to_string())
    );
    assert_eq!(
        user_text_of(&ChatMessage::System { content: ChatMessageContent::Text("s".to_string()) }),
        None
    );
    assert_eq!(user_text_of(&ChatMessage::Assistant { content: None }), None);
}

#[test]
fn refused_input_stops_the_replay() {
    let trace = vec![user("a"), user("b"), user("c")];
    let mut replay = TurnReplay::new(&trace);
    assert_eq!(replay.status(), ReplayStatus::Pending);
    assert_eq!(replay.next_input(), Some("a".to_string()));
    assert!(replay.record(Ok(())).is_ok());
    assert_eq!(replay.next_input(), Some("b".to_string()));
    match replay.record(Err(AgentError::SubmissionError("refused".to_string()))) {
        Err(AgentError::SubmissionError(m)) => assert_eq!(m, "refused"),
        other => panic!("expected the agent's error, got {:?}", other),
    }
    assert_eq!(replay.status(), ReplayStatus::Failed);
    assert_eq!(replay.next_input(), None);
    assert!(replay.record(Ok(())).is_ok());
    assert_eq!(replay.status(), ReplayStatus::Failed);
    assert_eq!(replay.next_input(), None);

    let mut s = AgentSession::new("id".to_string(), None, true);
    assert!(s.open_request(&replay).is_none());
    assert_eq!(s.active_requests(), 0);
}

#[test]
fn unfinished_replay_opens_no_request() {
    let mut s = AgentSession::new("id".to_string(), None, false);
    let trace = vec![user("a")];
    let mut replay = s.handle_request(&trace);
    assert!(s.open_request(&replay).is_none());
    assert!(replay.record(Ok(())).is_ok());
    let request = s.open_request(&replay).expect("set up");
    assert!(!request.lifecycle.owns());
    assert!(replay.record(Err(AgentError::SubmissionError("late".to_string()))).is_err());
    assert_eq!(replay.status(), ReplayStatus::Done);
}

#[test]
fn empty_trace_is_ready_at_once() {
    let mut s = AgentSession::new("id".to_string(), None, true);
    let replay = s.handle_request(&Vec::new());
    assert_eq!(replay.status(), ReplayStatus::Done);
    assert_eq!(replay.next_input(), None);
    assert!(s.open_request(&replay).is_some());
}
