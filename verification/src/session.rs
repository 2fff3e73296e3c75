//! Session state and the modal interaction state machine.
//!
//! The session owns the transcript, the single-permit busy flag, the
//! input buffer, the model selection, the edit mode and the scroll
//! state. Every mutation is a step of a deterministic transition
//! function; the executable methods carry those transitions as their
//! contracts, and the laws at the end of the module are proved over the
//! same transitions.

use vstd::prelude::*;
use vstd::string::*;

use crate::events::{plain_i, FrameInput};
use crate::messages::{
    lemma_msgs_view_add, lemma_msgs_view_push, lemma_msgs_view_take, msgs_view, system_message,
    system_prompt, ChatMessage, MessageView, Role,
};
use crate::scroll::{ScrollState, LINE_STEP, SCROLL_BOTTOM};
use crate::text::{is_blank, spec_is_blank, strs_view};

verus! {

/// The edit mode of the modal interaction machine. A fresh session
/// starts in `Insert` so that it is immediately typable.
#[derive(Clone, Copy, Debug, PartialEq, Eq, Structural)]
pub enum EditMode {
    Normal,
    Insert,
}

/// The single-permit guard over the two slow operations. At most one
/// chat request or history refresh is outstanding at any time, and the
/// variant names which; the exclusion is a fact of the type, not of a
/// flag's discipline.
#[derive(Clone, Copy, Debug, PartialEq, Eq, Structural)]
pub enum BusyState {
    Idle,
    AwaitingChat,
    AwaitingHistory,
}

/// One outgoing chat request: the user's text paired with the model
/// selected at send time.
#[derive(Debug, PartialEq)]
pub struct OutboundRequest {
    pub content: String,
    pub model: String,
}

/// The mathematical value of an [`OutboundRequest`].
pub struct RequestView {
    pub content: Seq<char>,
    pub model: Seq<char>,
}

impl View for OutboundRequest {
    type V = RequestView;

    open spec fn view(&self) -> RequestView {
        RequestView { content: self.content@, model: self.model@ }
    }
}

impl Clone for OutboundRequest {
    fn clone(&self) -> (r: Self)
        ensures
            r@ == self@,
    {
        OutboundRequest { content: self.content.clone(), model: self.model.clone() }
    }
}

/// The session as the frame loop mutates it between frames.
#[derive(Debug)]
pub struct Session {
    /// The ordered transcript, oldest first; position 0, if present, is
    /// the system prompt.
    pub transcript: Vec<ChatMessage>,
    /// The single-permit busy guard.
    pub busy: BusyState,
    /// The input buffer under the cursor.
    pub input: String,
    /// The model that outgoing requests name.
    pub selected_model: String,
    /// The models offered for selection.
    pub models: Vec<String>,
    /// Theme flag, the one persisted bit of interface state.
    pub dark_mode: bool,
    /// The modal machine's current mode.
    pub edit_mode: EditMode,
    /// Position of the message log.
    pub scroll: ScrollState,
}

/// The mathematical value of a [`Session`].
#[verifier::ext_equal]
pub struct SessionView {
    pub transcript: Seq<MessageView>,
    pub busy: BusyState,
    pub input: Seq<char>,
    pub selected_model: Seq<char>,
    pub models: Seq<Seq<char>>,
    pub dark_mode: bool,
    pub edit_mode: EditMode,
    pub scroll: ScrollState,
}

impl View for Session {
    type V = SessionView;

    open spec fn view(&self) -> SessionView {
        SessionView {
            transcript: msgs_view(self.transcript@),
            busy: self.busy,
            input: self.input@,
            selected_model: self.selected_model@,
            models: strs_view(self.models@),
            dark_mode: self.dark_mode,
            edit_mode: self.edit_mode,
            scroll: self.scroll,
        }
    }
}

/// The view of an optional outgoing request.
pub open spec fn opt_req_view(r: Option<OutboundRequest>) -> Option<RequestView> {
    match r {
        Some(q) => Some(q@),
        None => None,
    }
}

/// The view of a chat outcome: reply text on success, error text on
/// failure.
pub open spec fn chat_res_view(r: Result<String, String>) -> Result<Seq<char>, Seq<char>> {
    match r {
        Ok(c) => Ok(c@),
        Err(e) => Err(e@),
    }
}

/// The view of a history outcome: the fetched messages on success,
/// error text on failure.
pub open spec fn hist_res_view(r: Result<Vec<ChatMessage>, String>) -> Result<
    Seq<MessageView>,
    Seq<char>,
> {
    match r {
        Ok(v) => Ok(msgs_view(v@)),
        Err(e) => Err(e@),
    }
}

/// Prefix of the transcript notice for a failed chat request.
pub open spec fn chat_error_prefix() -> Seq<char> {
    "Error: "@
}

/// Prefix of the transcript notice for a failed history refresh.
pub open spec fn history_error_prefix() -> Seq<char> {
    "Error fetching history: "@
}

/// The state and emitted request of a send action: a no-op when the
/// input is blank or an operation is outstanding; otherwise the input
/// joins the transcript as a user message, the buffer empties, the busy
/// permit is taken for a chat request, a scroll to the bottom is
/// requested, and the request pairing the text with the selected model
/// is emitted.
pub open spec fn spec_send(s: SessionView) -> (SessionView, Option<RequestView>) {
    if spec_is_blank(s.input) || s.busy != BusyState::Idle {
        (s, None)
    } else {
        (
            SessionView {
                transcript: s.transcript.push(MessageView { role: Role::User, content: s.input }),
                busy: BusyState::AwaitingChat,
                input: Seq::empty(),
                scroll: s.scroll.spec_to_bottom(),
                ..s
            },
            Some(RequestView { content: s.input, model: s.selected_model }),
        )
    }
}

/// The state of a refresh action, and whether a fetch must be started:
/// a no-op when an operation is outstanding; otherwise the busy permit
/// is taken for a history refresh.
pub open spec fn spec_refresh(s: SessionView) -> (SessionView, bool) {
    if s.busy != BusyState::Idle {
        (s, false)
    } else {
        (SessionView { busy: BusyState::AwaitingHistory, ..s }, true)
    }
}

/// The state after a chat outcome is drained: a reply joins the
/// transcript as an assistant message and a scroll to the bottom is
/// requested; a failure joins it verbatim as a system notice, with no
/// scroll and no retry. Either way the busy permit is released.
pub open spec fn spec_apply_chat(s: SessionView, r: Result<Seq<char>, Seq<char>>) -> SessionView {
    match r {
        Ok(c) => SessionView {
            transcript: s.transcript.push(MessageView { role: Role::Assistant, content: c }),
            busy: BusyState::Idle,
            scroll: s.scroll.spec_to_bottom(),
            ..s
        },
        Err(e) => SessionView {
            transcript: s.transcript.push(
                MessageView { role: Role::System, content: chat_error_prefix() + e },
            ),
            busy: BusyState::Idle,
            ..s
        },
    }
}

/// The state after a history outcome is drained: on success the
/// transcript is truncated to its first element — the system message —
/// and the fetched messages follow it; on failure a system notice joins
/// the transcript, which is otherwise untouched. Either way the busy
/// permit is released.
pub open spec fn spec_apply_history(
    s: SessionView,
    r: Result<Seq<MessageView>, Seq<char>>,
) -> SessionView {
    match r {
        Ok(h) => SessionView {
            transcript: if s.transcript.len() == 0 {
                h
            } else {
                s.transcript.take(1) + h
            },
            busy: BusyState::Idle,
            ..s
        },
        Err(e) => SessionView {
            transcript: s.transcript.push(
                MessageView { role: Role::System, content: history_error_prefix() + e },
            ),
            busy: BusyState::Idle,
            ..s
        },
    }
}

/// The keyboard step of one frame, gated by the mode held at the start
/// of the frame. In `Insert`, Escape leaves for `Normal` and every
/// other key is ordinary typing. In `Normal`, a plain `i` returns to
/// `Insert`, a plain `r` asks for a history refresh, `j`/`k` request a
/// line step, their shifted forms a page step, `G` the bottom and `g`
/// the top; the checks run in that order, each on the state the
/// previous one left. Returns the new state and whether a history fetch
/// must be started.
pub open spec fn spec_handle_keys(s: SessionView, inp: FrameInput) -> (SessionView, bool) {
    if s.edit_mode == EditMode::Insert {
        let s1 = if inp.escape {
            SessionView { edit_mode: EditMode::Normal, ..s }
        } else {
            s
        };
        (s1, false)
    } else {
        let s1 = if plain_i(inp) {
            SessionView { edit_mode: EditMode::Insert, ..s }
        } else {
            s
        };
        let refreshed = if inp.key_r && inp.modifiers.none_held() {
            spec_refresh(s1)
        } else {
            (s1, false)
        };
        let s2 = refreshed.0;
        let s3 = if inp.key_j && !inp.modifiers.shift {
            SessionView { scroll: s2.scroll.spec_step_down(LINE_STEP), ..s2 }
        } else {
            s2
        };
        let s4 = if inp.key_k && !inp.modifiers.shift {
            SessionView { scroll: s3.scroll.spec_step_up(LINE_STEP), ..s3 }
        } else {
            s3
        };
        let s5 = if inp.key_j && inp.modifiers.shift {
            SessionView { scroll: s4.scroll.spec_step_down(s4.scroll.viewport_height), ..s4 }
        } else {
            s4
        };
        let s6 = if inp.key_k && inp.modifiers.shift {
            SessionView { scroll: s5.scroll.spec_step_up(s5.scroll.viewport_height), ..s5 }
        } else {
            s5
        };
        let s7 = if inp.key_g && inp.modifiers.shift {
            SessionView { scroll: s6.scroll.spec_to_bottom(), ..s6 }
        } else {
            s6
        };
        let s8 = if inp.key_g && !inp.modifiers.shift {
            SessionView { scroll: s7.scroll.spec_to_top(), ..s7 }
        } else {
            s7
        };
        (s8, refreshed.1)
    }
}

/// One frame's whole input step: the keyboard step, then the input
/// field's click — a click landing while the machine is still in
/// `Normal` moves it to `Insert`, exactly as the field handles it after
/// the keys have been interpreted.
pub open spec fn spec_handle_input(s: SessionView, inp: FrameInput) -> (SessionView, bool) {
    let keyed = spec_handle_keys(s, inp);
    let s2 = if keyed.0.edit_mode == EditMode::Normal && inp.input_clicked {
        SessionView { edit_mode: EditMode::Insert, ..keyed.0 }
    } else {
        keyed.0
    };
    (s2, keyed.1)
}

/// The starting session: the system prompt alone in the transcript or,
/// when a history fetch succeeded at startup, followed by the fetched
/// messages with a scroll to the bottom already requested; the first
/// offered model selected, the busy permit free, and `Insert` mode.
pub open spec fn spec_initial_session(
    models: Seq<Seq<char>>,
    history: Option<Seq<MessageView>>,
) -> SessionView {
    SessionView {
        transcript: seq![MessageView { role: Role::System, content: system_prompt() }] + (
        match history {
            Some(h) => h,
            None => Seq::empty(),
        }),
        busy: BusyState::Idle,
        input: Seq::empty(),
        selected_model: if models.len() > 0 {
            models[0]
        } else {
            Seq::empty()
        },
        models: models,
        dark_mode: true,
        edit_mode: EditMode::Insert,
        scroll: ScrollState {
            current_offset: 0,
            pending_offset: if history is Some {
                Some(SCROLL_BOTTOM)
            } else {
                None
            },
            viewport_height: 0,
        },
    }
}

/// The view of an optional fetched history.
pub open spec fn opt_hist_view(h: Option<Vec<ChatMessage>>) -> Option<Seq<MessageView>> {
    match h {
        Some(v) => Some(msgs_view(v@)),
        None => None,
    }
}

impl Session {
    /// Builds the starting session from the offered models and the
    /// history fetched at startup, if that fetch succeeded.
    pub fn new(models: Vec<String>, history: Option<Vec<ChatMessage>>) -> (s: Session)
        ensures
            s@ == spec_initial_session(strs_view(models@), opt_hist_view(history)),
    {
        let ghost models_v = strs_view(models@);
        let ghost hist_v = opt_hist_view(history);
        let mut transcript: Vec<ChatMessage> = Vec::new();
        transcript.push(system_message());
        let mut pending: Option<u64> = None;
        match history {
            Some(mut h) => {
                proof {
                    lemma_msgs_view_add(transcript@, h@);
                }
                transcript.append(&mut h);
                pending = Some(SCROLL_BOTTOM);
            },
            None => {},
        }
        let selected_model = if models.len() > 0 {
            models[0].clone()
        } else {
            String::new()
        };
        let s = Session {
            transcript,
            busy: BusyState::Idle,
            input: String::new(),
            selected_model,
            models,
            dark_mode: true,
            edit_mode: EditMode::Insert,
            scroll: ScrollState { current_offset: 0, pending_offset: pending, viewport_height: 0 },
        };
        proof {
            assert(s@ =~= spec_initial_session(models_v, hist_v));
        }
        s
    }

    /// Requests a scroll to the bottom of the message log.
    pub fn scroll_to_bottom(&mut self)
        ensures
            final(self)@ == (SessionView { scroll: old(self)@.scroll.spec_to_bottom(), ..old(
                self,
            )@ }),
    {
        self.scroll.to_bottom();
        proof {
            assert(self@ =~= (SessionView { scroll: old(self)@.scroll.spec_to_bottom(), ..old(
                self,
            )@ }));
        }
    }

    /// The send action. Returns the request to hand to the dispatcher,
    /// or `None` when the action was a no-op.
    pub fn send_message(&mut self) -> (r: Option<OutboundRequest>)
        ensures
            final(self)@ == spec_send(old(self)@).0,
            opt_req_view(r) == spec_send(old(self)@).1,
    {
        if is_blank(self.input.as_str()) || self.busy != BusyState::Idle {
            return None;
        }
        let content = self.input.clone();
        let model = self.selected_model.clone();
        proof {
            lemma_msgs_view_push(
                self.transcript@,
                ChatMessage { role: Role::User, content: content },
            );
        }
        let message = ChatMessage { role: Role::User, content: self.input.clone() };
        self.transcript.push(message);
        self.scroll.to_bottom();
        self.input = String::new();
        self.busy = BusyState::AwaitingChat;
        let r = Some(OutboundRequest { content, model });
        proof {
            assert(self@ =~= spec_send(old(self)@).0);
        }
        r
    }

    /// The refresh action. Returns whether a history fetch must be
    /// started; when an operation is already outstanding the action is
    /// a no-op.
    pub fn refresh_history(&mut self) -> (started: bool)
        ensures
            final(self)@ == spec_refresh(old(self)@).0,
            started == spec_refresh(old(self)@).1,
    {
        if self.busy != BusyState::Idle {
            return false;
        }
        self.busy = BusyState::AwaitingHistory;
        proof {
            assert(self@ =~= spec_refresh(old(self)@).0);
        }
        true
    }

    /// Drains one chat outcome into the transcript and releases the
    /// busy permit.
    pub fn apply_chat_result(&mut self, r: Result<String, String>)
        ensures
            final(self)@ == spec_apply_chat(old(self)@, chat_res_view(r)),
    {
        match r {
            Ok(content) => {
                proof {
                    lemma_msgs_view_push(
                        self.transcript@,
                        ChatMessage { role: Role::Assistant, content: content },
                    );
                }
                self.transcript.push(ChatMessage { role: Role::Assistant, content });
                self.scroll.to_bottom();
            },
            Err(error) => {
                let notice = String::from_str("Error: ").concat(error.as_str());
                proof {
                    lemma_msgs_view_push(
                        self.transcript@,
                        ChatMessage { role: Role::System, content: notice },
                    );
                }
                self.transcript.push(ChatMessage { role: Role::System, content: notice });
            },
        }
        self.busy = BusyState::Idle;
        proof {
            assert(self@ =~= spec_apply_chat(old(self)@, chat_res_view(r)));
        }
    }

    /// Drains one history outcome: on success the transcript keeps only
    /// its first element — the system message — and the fetched
    /// messages follow it; on failure a system notice is appended. The
    /// busy permit is released either way.
    pub fn apply_history_result(&mut self, r: Result<Vec<ChatMessage>, String>)
        ensures
            final(self)@ == spec_apply_history(old(self)@, hist_res_view(r)),
    {
        match r {
            Ok(mut h) => {
                proof {
                    if self.transcript@.len() > 0 {
                        lemma_msgs_view_take(self.transcript@, 1);
                    }
                }
                if self.transcript.len() > 0 {
                    self.transcript.truncate(1);
                }
                proof {
                    lemma_msgs_view_add(self.transcript@, h@);
                }
                self.transcript.append(&mut h);
            },
            Err(error) => {
                let notice = String::from_str("Error fetching history: ").concat(error.as_str());
                proof {
                    lemma_msgs_view_push(
                        self.transcript@,
                        ChatMessage { role: Role::System, content: notice },
                    );
                }
                self.transcript.push(ChatMessage { role: Role::System, content: notice });
            },
        }
        self.busy = BusyState::Idle;
        proof {
            if hist_res_view(r) matches Ok(h) && old(self)@.transcript.len() == 0 {
                assert(self@.transcript =~= spec_apply_history(old(self)@, hist_res_view(r)).transcript);
            }
            assert(self@ =~= spec_apply_history(old(self)@, hist_res_view(r)));
        }
    }

    /// Interprets one frame's input events, mode-gated as
    /// [`spec_handle_input`] lays down. Returns whether a history fetch
    /// must be started.
    pub fn handle_frame_input(&mut self, inp: FrameInput) -> (started: bool)
        ensures
            final(self)@ == spec_handle_input(old(self)@, inp).0,
            started == spec_handle_input(old(self)@, inp).1,
    {
        let mut started = false;
        match self.edit_mode {
            EditMode::Insert => {
                if inp.escape {
                    self.edit_mode = EditMode::Normal;
                }
            },
            EditMode::Normal => {
                if inp.key_i && !inp.modifiers.shift && !inp.modifiers.ctrl && !inp.modifiers.alt
                    && !inp.modifiers.mac_cmd && !inp.modifiers.command {
                    self.edit_mode = EditMode::Insert;
                }
                if inp.key_r && !inp.modifiers.shift && !inp.modifiers.ctrl && !inp.modifiers.alt
                    && !inp.modifiers.mac_cmd && !inp.modifiers.command {
                    started = self.refresh_history();
                }
                if inp.key_j && !inp.modifiers.shift {
                    self.scroll.step_down(LINE_STEP);
                }
                if inp.key_k && !inp.modifiers.shift {
                    self.scroll.step_up(LINE_STEP);
                }
                if inp.key_j && inp.modifiers.shift {
                    let page = self.scroll.viewport_height;
                    self.scroll.step_down(page);
                }
                if inp.key_k && inp.modifiers.shift {
                    let page = self.scroll.viewport_height;
                    self.scroll.step_up(page);
                }
                if inp.key_g && inp.modifiers.shift {
                    self.scroll.to_bottom();
                }
                if inp.key_g && !inp.modifiers.shift {
                    self.scroll.to_top();
                }
            },
        }
        if self.edit_mode == EditMode::Normal && inp.input_clicked {
            self.edit_mode = EditMode::Insert;
        }
        proof {
            assert(self@ =~= spec_handle_input(old(self)@, inp).0);
        }
        started
    }

    /// Records the outcome of this frame's layout pass over the message
    /// log; any requested offset is consumed, clamped and cleared.
    pub fn apply_layout(&mut self, max_offset: u64, viewport_height: u64)
        ensures
            final(self)@ == (SessionView {
                scroll: old(self)@.scroll.spec_laid_out(max_offset, viewport_height),
                ..old(self)@
            }),
            final(self).scroll.pending_offset is None,
    {
        self.scroll.apply_layout(max_offset, viewport_height);
        proof {
            assert(self@ =~= (SessionView {
                scroll: old(self)@.scroll.spec_laid_out(max_offset, viewport_height),
                ..old(self)@
            }));
        }
    }

    /// Flips the theme flag.
    pub fn toggle_dark_mode(&mut self)
        ensures
            final(self)@ == (SessionView { dark_mode: !old(self)@.dark_mode, ..old(self)@ }),
    {
        self.dark_mode = !self.dark_mode;
        proof {
            assert(self@ =~= (SessionView { dark_mode: !old(self)@.dark_mode, ..old(self)@ }));
        }
    }

    /// Selects the offered model at `idx`; out-of-range indices leave
    /// the selection unchanged.
    pub fn select_model(&mut self, idx: usize)
        ensures
            idx < old(self)@.models.len() ==> final(self)@ == (SessionView {
                selected_model: old(self)@.models[idx as int],
                ..old(self)@
            }),
            idx >= old(self)@.models.len() ==> final(self)@ == old(self)@,
    {
        if idx < self.models.len() {
            self.selected_model = self.models[idx].clone();
            proof {
                assert(self@ =~= (SessionView {
                    selected_model: old(self)@.models[idx as int],
                    ..old(self)@
                }));
            }
        }
    }

    /// Whether an operation is outstanding, as the panels read it.
    pub fn is_busy(&self) -> (r: bool)
        ensures
            r == (self@.busy != BusyState::Idle),
    {
        self.busy != BusyState::Idle
    }
}

/// Sending is a no-op — no transcript change, no submission, no state
/// change at all — whenever the input is blank or an operation is
/// outstanding.
pub proof fn lemma_send_no_op(s: SessionView)
    requires
        spec_is_blank(s.input) || s.busy != BusyState::Idle,
    ensures
        spec_send(s).0 == s,
        spec_send(s).1 is None,
{
}

/// A successful history refresh over a non-empty transcript keeps
/// element 0 — the system message — untouched and replaces everything
/// after it with the fetched sequence.
pub proof fn lemma_history_preserves_system_message(s: SessionView, h: Seq<MessageView>)
    requires
        s.transcript.len() > 0,
    ensures
        spec_apply_history(s, Ok(h)).transcript[0] == s.transcript[0],
        spec_apply_history(s, Ok(h)).transcript.skip(1) == h,
        spec_apply_history(s, Ok(h)).transcript.len() == 1 + h.len(),
{
    let t = spec_apply_history(s, Ok(h)).transcript;
    assert(t[0] == s.transcript[0]);
    assert(t.skip(1) =~= h);
}

/// Mode transitions are total and narrow: from `Insert` only Escape
/// leads away, from `Normal` only a plain `i` or a click on the input
/// field leads away, and no other event of a frame moves the mode.
pub proof fn lemma_mode_transitions_total(s: SessionView, inp: FrameInput)
    ensures
        ({
            let m2 = spec_handle_input(s, inp).0.edit_mode;
            &&& (m2 != s.edit_mode ==> ((s.edit_mode == EditMode::Insert && inp.escape) || (
            s.edit_mode == EditMode::Normal && (plain_i(inp) || inp.input_clicked))))
            &&& (s.edit_mode == EditMode::Insert && inp.escape && !inp.input_clicked ==> m2
                == EditMode::Normal)
            &&& (s.edit_mode == EditMode::Insert && !inp.escape ==> m2 == EditMode::Insert)
            &&& (s.edit_mode == EditMode::Normal && (plain_i(inp) || inp.input_clicked) ==> m2
                == EditMode::Insert)
            &&& (s.edit_mode == EditMode::Normal && !plain_i(inp) && !inp.input_clicked ==> m2
                == EditMode::Normal)
        }),
{
}

} // verus!
