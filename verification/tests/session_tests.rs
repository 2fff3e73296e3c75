use md_chat::events::FrameInput;
use md_chat::messages::{ChatMessage, Role};
use md_chat::scroll::SCROLL_BOTTOM;
use md_chat::session::{BusyState, EditMode, Session};

const SYSTEM_PROMPT: &str =
    "You are a helpful assistant. You can use markdown formatting in your responses.";

fn models() -> Vec<String> {
    vec!["gpt-4o".to_string(), "gpt-4o-mini".to_string()]
}

fn fresh() -> Session {
    Session::new(models(), None)
}

#[test]
fn new_session_opens_with_the_system_prompt_in_insert_mode() {
    let s = fresh();
    assert_eq!(s.transcript.len(), 1);
    assert_eq!(s.transcript[0].role, Role::System);
    assert_eq!(s.transcript[0].content, SYSTEM_PROMPT);
    assert_eq!(s.edit_mode, EditMode::Insert);
    assert_eq!(s.busy, BusyState::Idle);
    assert_eq!(s.input, "");
    assert_eq!(s.selected_model, "gpt-4o");
    assert!(s.dark_mode);
    assert_eq!(s.scroll.pending_offset, None);
}

#[test]
fn new_session_with_fetched_history_appends_it_and_scrolls_down() {
    let history = vec![
        ChatMessage { role: Role::User, content: "hi".to_string() },
        ChatMessage { role: Role::Assistant, content: "hello".to_string() },
    ];
    let s = Session::new(models(), Some(history));
    assert_eq!(s.transcript.len(), 3);
    assert_eq!(s.transcript[0].role, Role::System);
    assert_eq!(s.transcript[1].content, "hi");
    assert_eq!(s.transcript[2].content, "hello");
    assert_eq!(s.scroll.pending_offset, Some(SCROLL_BOTTOM));
}

#[test]
fn new_session_with_no_models_selects_the_empty_string() {
    let s = Session::new(Vec::new(), None);
    assert_eq!(s.selected_model, "");
}

#[test]
fn send_appends_user_message_and_emits_the_request() {
    let mut s = fresh();
    s.input = "hello".to_string();
    let r = s.send_message().expect("a request must be emitted");
    assert_eq!(r.content, "hello");
    assert_eq!(r.model, "gpt-4o");
    assert_eq!(s.transcript.len(), 2);
    assert_eq!(s.transcript[1].role, Role::User);
    assert_eq!(s.transcript[1].content, "hello");
    assert_eq!(s.input, "");
    assert_eq!(s.busy, BusyState::AwaitingChat);
    assert_eq!(s.scroll.pending_offset, Some(SCROLL_BOTTOM));
}

#[test]
fn send_is_a_no_op_on_empty_input() {
    let mut s = fresh();
    assert!(s.send_message().is_none());
    assert_eq!(s.transcript.len(), 1);
    assert_eq!(s.busy, BusyState::Idle);
}

#[test]
fn send_is_a_no_op_on_whitespace_input() {
    let mut s = fresh();
    s.input = " \t\r\n\u{a0}\u{3000}".to_string();
    assert!(s.send_message().is_none());
    assert_eq!(s.transcript.len(), 1);
    assert_eq!(s.input, " \t\r\n\u{a0}\u{3000}");
    assert_eq!(s.busy, BusyState::Idle);
}

#[test]
fn send_is_a_no_op_while_busy() {
    let mut s = fresh();
    s.input = "first".to_string();
    assert!(s.send_message().is_some());
    s.input = "second".to_string();
    assert!(s.send_message().is_none());
    assert_eq!(s.transcript.len(), 2);
    assert_eq!(s.input, "second");
}

#[test]
fn refresh_takes_the_permit_and_refresh_while_busy_is_a_no_op() {
    let mut s = fresh();
    assert!(s.refresh_history());
    assert_eq!(s.busy, BusyState::AwaitingHistory);
    assert!(!s.refresh_history());
    assert_eq!(s.busy, BusyState::AwaitingHistory);
}

#[test]
fn chat_reply_joins_transcript_and_frees_the_permit() {
    let mut s = fresh();
    s.input = "question".to_string();
    s.send_message();
    s.scroll.pending_offset = None;
    s.apply_chat_result(Ok("answer".to_string()));
    assert_eq!(s.transcript.len(), 3);
    assert_eq!(s.transcript[2].role, Role::Assistant);
    assert_eq!(s.transcript[2].content, "answer");
    assert_eq!(s.busy, BusyState::Idle);
    assert_eq!(s.scroll.pending_offset, Some(SCROLL_BOTTOM));
}

#[test]
fn chat_failure_becomes_a_system_notice_without_scrolling() {
    let mut s = fresh();
    s.input = "question".to_string();
    s.send_message();
    s.scroll.pending_offset = None;
    s.apply_chat_result(Err("timeout".to_string()));
    assert_eq!(s.transcript.len(), 3);
    assert_eq!(s.transcript[2].role, Role::System);
    assert_eq!(s.transcript[2].content, "Error: timeout");
    assert_eq!(s.busy, BusyState::Idle);
    assert_eq!(s.scroll.pending_offset, None);
}

#[test]
fn history_refresh_preserves_the_system_message_and_replaces_the_rest() {
    let mut s = fresh();
    s.input = "old question".to_string();
    s.send_message();
    s.apply_chat_result(Ok("old answer".to_string()));
    assert_eq!(s.transcript.len(), 3);
    assert!(s.refresh_history());
    let fetched = vec![
        ChatMessage { role: Role::User, content: "from server".to_string() },
        ChatMessage { role: Role::Assistant, content: "fresh".to_string() },
    ];
    s.apply_history_result(Ok(fetched));
    assert_eq!(s.transcript.len(), 3);
    assert_eq!(s.transcript[0].role, Role::System);
    assert_eq!(s.transcript[0].content, SYSTEM_PROMPT);
    assert_eq!(s.transcript[1].content, "from server");
    assert_eq!(s.transcript[2].content, "fresh");
    assert_eq!(s.busy, BusyState::Idle);
}

#[test]
fn history_refresh_on_empty_transcript_takes_the_fetch_as_is() {
    let mut s = fresh();
    s.transcript.clear();
    s.refresh_history();
    let fetched = vec![ChatMessage { role: Role::User, content: "only".to_string() }];
    s.apply_history_result(Ok(fetched));
    assert_eq!(s.transcript.len(), 1);
    assert_eq!(s.transcript[0].content, "only");
}

#[test]
fn history_failure_leaves_transcript_and_appends_a_notice() {
    let mut s = fresh();
    s.refresh_history();
    s.apply_history_result(Err("boom".to_string()));
    assert_eq!(s.transcript.len(), 2);
    assert_eq!(s.transcript[0].role, Role::System);
    assert_eq!(s.transcript[1].role, Role::System);
    assert_eq!(s.transcript[1].content, "Error fetching history: boom");
    assert_eq!(s.busy, BusyState::Idle);
}

#[test]
fn escape_leaves_insert_for_normal() {
    let mut s = fresh();
    let mut inp = FrameInput::quiet();
    inp.escape = true;
    s.handle_frame_input(inp);
    assert_eq!(s.edit_mode, EditMode::Normal);
}

#[test]
fn only_escape_changes_mode_in_insert() {
    for make in [
        |i: &mut FrameInput| i.key_i = true,
        |i: &mut FrameInput| i.key_j = true,
        |i: &mut FrameInput| i.key_k = true,
        |i: &mut FrameInput| i.key_g = true,
        |i: &mut FrameInput| i.key_r = true,
        |i: &mut FrameInput| i.modifiers.shift = true,
    ] {
        let mut s = fresh();
        let mut inp = FrameInput::quiet();
        make(&mut inp);
        s.handle_frame_input(inp);
        assert_eq!(s.edit_mode, EditMode::Insert);
    }
}

#[test]
fn plain_i_returns_normal_to_insert() {
    let mut s = fresh();
    s.edit_mode = EditMode::Normal;
    let mut inp = FrameInput::quiet();
    inp.key_i = true;
    s.handle_frame_input(inp);
    assert_eq!(s.edit_mode, EditMode::Insert);
}

#[test]
fn modified_i_does_not_leave_normal() {
    let mut s = fresh();
    s.edit_mode = EditMode::Normal;
    let mut inp = FrameInput::quiet();
    inp.key_i = true;
    inp.modifiers.ctrl = true;
    s.handle_frame_input(inp);
    assert_eq!(s.edit_mode, EditMode::Normal);
}

#[test]
fn input_click_returns_normal_to_insert() {
    let mut s = fresh();
    s.edit_mode = EditMode::Normal;
    let mut inp = FrameInput::quiet();
    inp.input_clicked = true;
    s.handle_frame_input(inp);
    assert_eq!(s.edit_mode, EditMode::Insert);
}

#[test]
fn navigation_keys_leave_normal_mode_unchanged() {
    for make in [
        |i: &mut FrameInput| i.key_j = true,
        |i: &mut FrameInput| i.key_k = true,
        |i: &mut FrameInput| i.key_g = true,
        |i: &mut FrameInput| i.key_r = true,
        |i: &mut FrameInput| i.escape = true,
    ] {
        let mut s = fresh();
        s.edit_mode = EditMode::Normal;
        let mut inp = FrameInput::quiet();
        make(&mut inp);
        s.handle_frame_input(inp);
        assert_eq!(s.edit_mode, EditMode::Normal, "mode must stay Normal");
    }
}

#[test]
fn r_key_in_normal_mode_starts_a_refresh() {
    let mut s = fresh();
    s.edit_mode = EditMode::Normal;
    let mut inp = FrameInput::quiet();
    inp.key_r = true;
    let started = s.handle_frame_input(inp);
    assert!(started);
    assert_eq!(s.busy, BusyState::AwaitingHistory);
}

#[test]
fn r_key_in_insert_mode_types_instead_of_refreshing() {
    let mut s = fresh();
    let mut inp = FrameInput::quiet();
    inp.key_r = true;
    let started = s.handle_frame_input(inp);
    assert!(!started);
    assert_eq!(s.busy, BusyState::Idle);
}

#[test]
fn g_and_shift_g_request_top_and_bottom() {
    let mut s = fresh();
    s.edit_mode = EditMode::Normal;
    let mut inp = FrameInput::quiet();
    inp.key_g = true;
    inp.modifiers.shift = true;
    s.handle_frame_input(inp);
    assert_eq!(s.scroll.pending_offset, Some(SCROLL_BOTTOM));
    let mut inp2 = FrameInput::quiet();
    inp2.key_g = true;
    s.handle_frame_input(inp2);
    assert_eq!(s.scroll.pending_offset, Some(0));
}

#[test]
fn j_and_k_step_by_one_line_in_normal_mode() {
    let mut s = fresh();
    s.edit_mode = EditMode::Normal;
    s.scroll.current_offset = 500;
    let mut down = FrameInput::quiet();
    down.key_j = true;
    s.handle_frame_input(down);
    assert_eq!(s.scroll.pending_offset, Some(560));
    let mut up = FrameInput::quiet();
    up.key_k = true;
    s.handle_frame_input(up);
    assert_eq!(s.scroll.pending_offset, Some(440));
}

#[test]
fn shift_j_pages_down_and_layout_clamps_to_content() {
    let mut s = fresh();
    s.edit_mode = EditMode::Normal;
    s.scroll.current_offset = 500;
    s.scroll.viewport_height = 300;
    let mut inp = FrameInput::quiet();
    inp.key_j = true;
    inp.modifiers.shift = true;
    s.handle_frame_input(inp);
    assert_eq!(s.scroll.pending_offset, Some(800));
    s.apply_layout(650, 300);
    assert_eq!(s.scroll.current_offset, 650);
    assert_eq!(s.scroll.pending_offset, None);
}

#[test]
fn toggle_dark_mode_flips_the_flag() {
    let mut s = fresh();
    assert!(s.dark_mode);
    s.toggle_dark_mode();
    assert!(!s.dark_mode);
    s.toggle_dark_mode();
    assert!(s.dark_mode);
}

#[test]
fn select_model_picks_by_index_and_ignores_out_of_range() {
    let mut s = fresh();
    s.select_model(1);
    assert_eq!(s.selected_model, "gpt-4o-mini");
    s.select_model(17);
    assert_eq!(s.selected_model, "gpt-4o-mini");
}

#[test]
fn sent_request_names_the_selected_model() {
    let mut s = fresh();
    s.select_model(1);
    s.input = "hello".to_string();
    let r = s.send_message().unwrap();
    assert_eq!(r.model, "gpt-4o-mini");
}
