use md_chat::client::ChatClient;
use md_chat::dispatcher::Dispatcher;
use md_chat::events::FrameInput;
use md_chat::messages::{ChatMessage, Role};
use md_chat::session::{BusyState, OutboundRequest};

fn models() -> Vec<String> {
    vec!["gpt-4o".to_string()]
}

fn fresh() -> ChatClient {
    ChatClient::new(models(), None)
}

fn req(content: &str) -> OutboundRequest {
    OutboundRequest { content: content.to_string(), model: "gpt-4o".to_string() }
}

#[test]
fn dispatcher_delivers_results_in_submission_order() {
    let mut d = Dispatcher::new();
    d.submit(req("first"));
    d.submit(req("second"));
    d.submit(req("third"));
    let r1 = d.worker_step(Ok("answer one".to_string()));
    assert_eq!(r1.content, "first");
    let r2 = d.worker_step(Err("lost".to_string()));
    assert_eq!(r2.content, "second");
    let r3 = d.worker_step(Ok("answer three".to_string()));
    assert_eq!(r3.content, "third");
    assert_eq!(d.poll(), Some(Ok("answer one".to_string())));
    assert_eq!(d.poll(), Some(Err("lost".to_string())));
    assert_eq!(d.poll(), Some(Ok("answer three".to_string())));
    assert_eq!(d.poll(), None);
}

#[test]
fn dispatcher_interleaves_like_the_worker_one_in_flight_at_a_time() {
    let mut d = Dispatcher::new();
    d.submit(req("a"));
    let ra = d.worker_step(Ok("ra".to_string()));
    assert_eq!(ra.content, "a");
    d.submit(req("b"));
    assert_eq!(d.poll(), Some(Ok("ra".to_string())));
    let rb = d.worker_step(Ok("rb".to_string()));
    assert_eq!(rb.content, "b");
    assert_eq!(d.poll(), Some(Ok("rb".to_string())));
    assert_eq!(d.queued_len(), 0);
    assert_eq!(d.ready_len(), 0);
}

#[test]
fn busy_permit_blocks_refresh_while_a_chat_is_outstanding() {
    let mut c = fresh();
    c.session.input = "hello".to_string();
    assert!(c.send_message().is_some());
    assert_eq!(c.session.busy, BusyState::AwaitingChat);
    assert!(!c.refresh_history());
    assert!(!c.history_fetch_active);
    c.chat_complete(Ok("answer".to_string()));
    c.poll_chat();
    assert_eq!(c.session.busy, BusyState::Idle);
    assert!(c.refresh_history());
    assert!(c.history_fetch_active);
}

#[test]
fn busy_permit_blocks_send_while_a_refresh_is_outstanding() {
    let mut c = fresh();
    assert!(c.refresh_history());
    assert_eq!(c.session.busy, BusyState::AwaitingHistory);
    c.session.input = "hello".to_string();
    assert!(c.send_message().is_none());
    assert_eq!(c.dispatcher.queued_len(), 0);
    c.poll_history(Some(Ok(Vec::new())));
    assert_eq!(c.session.busy, BusyState::Idle);
    assert!(!c.history_fetch_active);
    assert!(c.send_message().is_some());
}

#[test]
fn poll_returns_the_permit_after_each_operation() {
    let mut c = fresh();
    c.session.input = "one".to_string();
    c.send_message();
    c.chat_complete(Ok("reply".to_string()));
    c.poll_chat();
    assert_eq!(c.session.busy, BusyState::Idle);
    c.refresh_history();
    c.poll_history(Some(Err("gone".to_string())));
    assert_eq!(c.session.busy, BusyState::Idle);
}

#[test]
fn failed_chat_surfaces_once_and_enqueues_no_retry() {
    let mut c = fresh();
    c.session.input = "ping".to_string();
    assert!(c.send_message().is_some());
    let processed = c.chat_complete(Err("timeout".to_string()));
    assert_eq!(processed.content, "ping");
    c.poll_chat();
    let last = c.session.transcript.last().unwrap();
    assert_eq!(last.role, Role::System);
    assert_eq!(last.content, "Error: timeout");
    assert_eq!(c.session.busy, BusyState::Idle);
    assert_eq!(c.dispatcher.queued_len(), 0);
    assert_eq!(c.dispatcher.ready_len(), 0);
}

#[test]
fn frame_tick_sends_typed_hello_and_takes_the_permit() {
    let mut c = fresh();
    c.session.input = "hello".to_string();
    let actions = c.frame_tick(false, FrameInput::quiet(), true, 10_000, 300, None);
    let submitted = actions.submit.expect("the request must go out");
    assert_eq!(submitted.content, "hello");
    assert_eq!(submitted.model, "gpt-4o");
    assert!(!actions.start_history_fetch);
    assert_eq!(c.session.transcript.len(), 2);
    assert_eq!(c.session.transcript[1].role, Role::User);
    assert_eq!(c.session.transcript[1].content, "hello");
    assert_eq!(c.session.input, "");
    assert_eq!(c.session.busy, BusyState::AwaitingChat);
}

#[test]
fn frame_tick_ignores_send_while_in_normal_mode() {
    let mut c = fresh();
    let mut inp = FrameInput::quiet();
    inp.escape = true;
    c.frame_tick(false, inp, false, 10_000, 300, None);
    c.session.input = "hello".to_string();
    let actions = c.frame_tick(false, FrameInput::quiet(), true, 10_000, 300, None);
    assert!(actions.submit.is_none());
    assert_eq!(c.session.transcript.len(), 1);
}

#[test]
fn frame_tick_refresh_button_starts_one_fetch_only() {
    let mut c = fresh();
    let actions = c.frame_tick(true, FrameInput::quiet(), false, 10_000, 300, None);
    assert!(actions.start_history_fetch);
    assert!(c.history_fetch_active);
    let again = c.frame_tick(true, FrameInput::quiet(), false, 10_000, 300, None);
    assert!(!again.start_history_fetch);
}

#[test]
fn frame_tick_drains_the_history_outcome_it_was_handed() {
    let mut c = fresh();
    c.frame_tick(true, FrameInput::quiet(), false, 10_000, 300, None);
    let fetched = vec![ChatMessage { role: Role::User, content: "from server".to_string() }];
    c.frame_tick(false, FrameInput::quiet(), false, 10_000, 300, Some(Ok(fetched)));
    assert_eq!(c.session.busy, BusyState::Idle);
    assert!(!c.history_fetch_active);
    assert_eq!(c.session.transcript.len(), 2);
    assert_eq!(c.session.transcript[1].content, "from server");
}

#[test]
fn frame_tick_can_start_and_drain_a_fetch_in_one_frame() {
    let mut c = fresh();
    let fetched = vec![ChatMessage { role: Role::Assistant, content: "quick".to_string() }];
    let actions = c.frame_tick(true, FrameInput::quiet(), false, 10_000, 300, Some(Ok(fetched)));
    assert!(actions.start_history_fetch);
    assert!(!c.history_fetch_active);
    assert_eq!(c.session.busy, BusyState::Idle);
    assert_eq!(c.session.transcript.len(), 2);
    assert_eq!(c.session.transcript[1].content, "quick");
}

#[test]
fn frame_tick_drains_a_chat_outcome_and_scrolls_down_next_frame() {
    let mut c = fresh();
    c.session.input = "q".to_string();
    c.frame_tick(false, FrameInput::quiet(), true, 10_000, 300, None);
    assert_eq!(c.session.scroll.pending_offset, None, "layout consumed the send's request");
    c.chat_complete(Ok("a".to_string()));
    c.frame_tick(false, FrameInput::quiet(), false, 10_000, 300, None);
    assert_eq!(c.session.busy, BusyState::Idle);
    let last = c.session.transcript.last().unwrap();
    assert_eq!(last.role, Role::Assistant);
    assert_eq!(last.content, "a");
    assert_eq!(c.session.scroll.pending_offset, Some(100_000));
}
