//! The whole client core in one place: the session, the dispatcher and
//! the ephemeral history fetch, tied together by the single-permit
//! busy guard.
//!
//! Well-formedness states the guard's meaning: the busy flag reads
//! `AwaitingChat` exactly when one chat request is outstanding in the
//! dispatcher, `AwaitingHistory` exactly when one history fetch is in
//! flight, and never more than one of the two operations is outstanding
//! system-wide. Every operation requires and preserves it.

use vstd::prelude::*;

use crate::dispatcher::{lemma_wf_bounds, Dispatcher};
use crate::events::FrameInput;
use crate::messages::{ChatMessage, MessageView};
use crate::session::{
    chat_res_view, hist_res_view, opt_hist_view, opt_req_view, spec_apply_chat,
    spec_apply_history, spec_handle_input, spec_initial_session, spec_refresh, spec_send,
    BusyState, EditMode, OutboundRequest, RequestView, Session, SessionView,
};
use crate::text::strs_view;

verus! {

/// What one frame asked the surrounding application to do: hand a
/// request to the transport worker, and start a history fetch.
#[derive(Debug)]
pub struct FrameActions {
    pub submit: Option<OutboundRequest>,
    pub start_history_fetch: bool,
}

/// The mathematical value of a [`ChatClient`]: the session's value and
/// the dispatch histories.
#[verifier::ext_equal]
pub struct ClientView {
    pub session: SessionView,
    pub fetch_active: bool,
    pub submitted: Seq<RequestView>,
    pub produced: Seq<Result<Seq<char>, Seq<char>>>,
    pub drained: Seq<Result<Seq<char>, Seq<char>>>,
}

/// The session, the dispatcher, and whether an ephemeral history fetch
/// is in flight.
pub struct ChatClient {
    pub session: Session,
    pub dispatcher: Dispatcher,
    /// Mirrors the existence of the one-shot history channel: true from
    /// the frame a fetch is started until the frame its outcome is
    /// drained.
    pub history_fetch_active: bool,
}

impl View for ChatClient {
    type V = ClientView;

    open spec fn view(&self) -> ClientView {
        ClientView {
            session: self.session@,
            fetch_active: self.history_fetch_active,
            submitted: self.dispatcher.submitted(),
            produced: self.dispatcher.produced(),
            drained: self.dispatcher.drained(),
        }
    }
}

/// The view of an optional history outcome.
pub open spec fn opt_hist_res_view(r: Option<Result<Vec<ChatMessage>, String>>) -> Option<
    Result<Seq<MessageView>, Seq<char>>,
> {
    match r {
        Some(x) => Some(hist_res_view(x)),
        None => None,
    }
}

impl ChatClient {
    /// The single-permit guard holds: the dispatcher is well formed, at
    /// most one chat request is outstanding, the busy flag reads
    /// `AwaitingChat` exactly when one is, and `AwaitingHistory`
    /// exactly when a history fetch is in flight.
    pub open spec fn wf(&self) -> bool {
        &&& self.dispatcher.wf()
        &&& self.dispatcher.outstanding() <= 1
        &&& (self.session@.busy == BusyState::AwaitingChat <==> self.dispatcher.outstanding()
            == 1)
        &&& (self.session@.busy == BusyState::AwaitingHistory <==> self.history_fetch_active)
    }

    /// Builds the starting client around the starting session.
    pub fn new(models: Vec<String>, history: Option<Vec<ChatMessage>>) -> (c: ChatClient)
        ensures
            c.wf(),
            c@.session == spec_initial_session(strs_view(models@), opt_hist_view(history)),
            c@.fetch_active == false,
            c@.submitted == Seq::<RequestView>::empty(),
            c@.produced == Seq::<Result<Seq<char>, Seq<char>>>::empty(),
            c@.drained == Seq::<Result<Seq<char>, Seq<char>>>::empty(),
    {
        let c = ChatClient {
            session: Session::new(models, history),
            dispatcher: Dispatcher::new(),
            history_fetch_active: false,
        };
        proof {
            lemma_wf_bounds(c.dispatcher);
        }
        c
    }

    /// The send action: steps the session and, when a request came out,
    /// queues it with the dispatcher. Returns the request for the
    /// surrounding application's channel.
    pub fn send_message(&mut self) -> (r: Option<OutboundRequest>)
        requires
            old(self).wf(),
        ensures
            final(self).wf(),
            final(self)@.session == spec_send(old(self)@.session).0,
            opt_req_view(r) == spec_send(old(self)@.session).1,
            final(self)@.fetch_active == old(self)@.fetch_active,
            final(self)@.produced == old(self)@.produced,
            final(self)@.drained == old(self)@.drained,
            r matches Some(q) ==> final(self)@.submitted == old(self)@.submitted.push(q@),
            r is None ==> final(self)@.submitted == old(self)@.submitted,
    {
        proof {
            lemma_wf_bounds(self.dispatcher);
        }
        let r = self.session.send_message();
        match &r {
            Some(req) => {
                self.dispatcher.submit(req.clone());
            },
            None => {},
        }
        r
    }

    /// The refresh action: steps the session and records the in-flight
    /// fetch. Returns whether the surrounding application must start
    /// one.
    pub fn refresh_history(&mut self) -> (started: bool)
        requires
            old(self).wf(),
        ensures
            final(self).wf(),
            final(self)@.session == spec_refresh(old(self)@.session).0,
            started == spec_refresh(old(self)@.session).1,
            final(self)@.fetch_active == (old(self)@.fetch_active || started),
            final(self)@.submitted == old(self)@.submitted,
            final(self)@.produced == old(self)@.produced,
            final(self)@.drained == old(self)@.drained,
    {
        proof {
            lemma_wf_bounds(self.dispatcher);
        }
        let started = self.session.refresh_history();
        if started {
            self.history_fetch_active = true;
        }
        started
    }

    /// Interprets one frame's input events; a plain `r` in Normal mode
    /// may start a history fetch, which is recorded here. Returns
    /// whether the surrounding application must start one.
    pub fn handle_frame_input(&mut self, inp: FrameInput) -> (started: bool)
        requires
            old(self).wf(),
        ensures
            final(self).wf(),
            final(self)@.session == spec_handle_input(old(self)@.session, inp).0,
            started == spec_handle_input(old(self)@.session, inp).1,
            final(self)@.fetch_active == (old(self)@.fetch_active || started),
            final(self)@.submitted == old(self)@.submitted,
            final(self)@.produced == old(self)@.produced,
            final(self)@.drained == old(self)@.drained,
    {
        proof {
            lemma_wf_bounds(self.dispatcher);
        }
        let started = self.session.handle_frame_input(inp);
        if started {
            self.history_fetch_active = true;
        }
        started
    }

    /// One cycle of the transport worker over the model: takes the
    /// oldest queued request, delivers the transport's outcome for it.
    pub fn chat_complete(&mut self, outcome: Result<String, String>) -> (req: OutboundRequest)
        requires
            old(self).wf(),
            old(self).dispatcher.queued().len() > 0,
        ensures
            final(self).wf(),
            final(self)@.session == old(self)@.session,
            final(self)@.fetch_active == old(self)@.fetch_active,
            final(self)@.submitted == old(self)@.submitted,
            final(self)@.produced == old(self)@.produced.push(chat_res_view(outcome)),
            final(self)@.drained == old(self)@.drained,
            req@ == old(self)@.submitted[old(self)@.produced.len() as int],
    {
        proof {
            lemma_wf_bounds(self.dispatcher);
        }
        let req = self.dispatcher.worker_step(outcome);
        proof {
            lemma_wf_bounds(self.dispatcher);
        }
        req
    }

    /// Non-blocking drain of one chat outcome, once per frame: when one
    /// waits, it joins the transcript and the busy permit is released;
    /// no retry is ever queued.
    pub fn poll_chat(&mut self)
        requires
            old(self).wf(),
        ensures
            final(self).wf(),
            final(self)@.fetch_active == old(self)@.fetch_active,
            final(self)@.submitted == old(self)@.submitted,
            final(self)@.produced == old(self)@.produced,
            old(self)@.produced.len() <= old(self)@.drained.len() ==> final(self)@ == old(self)@,
            old(self)@.produced.len() > old(self)@.drained.len() ==> ({
                let outcome = old(self)@.produced[old(self)@.drained.len() as int];
                &&& final(self)@.session == spec_apply_chat(old(self)@.session, outcome)
                &&& final(self)@.drained == old(self)@.drained.push(outcome)
                &&& final(self)@.session.busy == BusyState::Idle
            }),
    {
        proof {
            lemma_wf_bounds(self.dispatcher);
        }
        let polled = self.dispatcher.poll();
        match polled {
            Some(outcome) => {
                self.session.apply_chat_result(outcome);
                proof {
                    lemma_wf_bounds(self.dispatcher);
                }
            },
            None => {
                proof {
                    assert(final(self)@ =~= old(self)@);
                }
            },
        }
    }

    /// Non-blocking drain of the history fetch, once per frame: a
    /// result is only ever seen while a fetch is in flight; when one
    /// arrives, the session applies it and the busy permit is released.
    pub fn poll_history(&mut self, result: Option<Result<Vec<ChatMessage>, String>>)
        requires
            old(self).wf(),
        ensures
            final(self).wf(),
            final(self)@.submitted == old(self)@.submitted,
            final(self)@.produced == old(self)@.produced,
            final(self)@.drained == old(self)@.drained,
            !(old(self)@.fetch_active && result is Some) ==> final(self)@ == old(self)@,
            old(self)@.fetch_active ==> (result matches Some(x) ==> ({
                &&& final(self)@.session == spec_apply_history(
                    old(self)@.session,
                    hist_res_view(x),
                )
                &&& final(self)@.fetch_active == false
                &&& final(self)@.session.busy == BusyState::Idle
            })),
    {
        proof {
            lemma_wf_bounds(self.dispatcher);
        }
        if self.history_fetch_active {
            match result {
                Some(r) => {
                    self.session.apply_history_result(r);
                    self.history_fetch_active = false;
                },
                None => {
                    proof {
                        assert(final(self)@ =~= old(self)@);
                    }
                },
            }
        } else {
            proof {
                assert(final(self)@ =~= old(self)@);
            }
        }
    }
}

/// One whole frame over the client, in the frame driver's order: the
/// refresh button, then the keyboard and the input field's click, then
/// the send action — gated on Insert mode, as the send controls only
/// exist there — then the layout pass over the message log, then the
/// drain of a history outcome, then the drain of a chat outcome.
/// Draining after input handling means a refresh triggered this frame
/// cannot be overwritten by a stale chat outcome of an earlier frame.
/// Returns the stepped client, the request to hand to the transport,
/// and whether a history fetch must be started.
pub open spec fn spec_frame_tick(
    c: ClientView,
    refresh_clicked: bool,
    inp: FrameInput,
    send_requested: bool,
    max_offset: u64,
    viewport_height: u64,
    history_result: Option<Result<Seq<MessageView>, Seq<char>>>,
) -> (ClientView, Option<RequestView>, bool) {
    let refreshed = if refresh_clicked {
        spec_refresh(c.session)
    } else {
        (c.session, false)
    };
    let keyed = spec_handle_input(refreshed.0, inp);
    let started = refreshed.1 || keyed.1;
    let fetch1 = c.fetch_active || started;
    let sent = if send_requested && keyed.0.edit_mode == EditMode::Insert {
        spec_send(keyed.0)
    } else {
        (keyed.0, None)
    };
    let submitted1 = match sent.1 {
        Some(q) => c.submitted.push(q),
        None => c.submitted,
    };
    let laid = SessionView {
        scroll: sent.0.scroll.spec_laid_out(max_offset, viewport_height),
        ..sent.0
    };
    let hist = if fetch1 {
        match history_result {
            Some(h) => (spec_apply_history(laid, h), false),
            None => (laid, fetch1),
        }
    } else {
        (laid, fetch1)
    };
    let chatted = if c.produced.len() > c.drained.len() {
        (
            spec_apply_chat(hist.0, c.produced[c.drained.len() as int]),
            c.drained.push(c.produced[c.drained.len() as int]),
        )
    } else {
        (hist.0, c.drained)
    };
    (
        ClientView {
            session: chatted.0,
            fetch_active: hist.1,
            submitted: submitted1,
            produced: c.produced,
            drained: chatted.1,
        },
        sent.1,
        started,
    )
}

impl ChatClient {
    /// Drives one whole frame, in the frame driver's order laid down by
    /// [`spec_frame_tick`]: input events first, the layout pass next,
    /// then the non-blocking drains of the two outcome channels.
    pub fn frame_tick(
        &mut self,
        refresh_clicked: bool,
        inp: FrameInput,
        send_requested: bool,
        max_offset: u64,
        viewport_height: u64,
        history_result: Option<Result<Vec<ChatMessage>, String>>,
    ) -> (actions: FrameActions)
        requires
            old(self).wf(),
        ensures
            final(self).wf(),
            ({
                let stepped = spec_frame_tick(
                    old(self)@,
                    refresh_clicked,
                    inp,
                    send_requested,
                    max_offset,
                    viewport_height,
                    opt_hist_res_view(history_result),
                );
                &&& final(self)@ == stepped.0
                &&& opt_req_view(actions.submit) == stepped.1
                &&& actions.start_history_fetch == stepped.2
            }),
    {
        let mut started = false;
        if refresh_clicked {
            started = self.refresh_history();
        }
        let started_keys = self.handle_frame_input(inp);
        let started_any = started || started_keys;
        let mut submit: Option<OutboundRequest> = None;
        if send_requested && self.session.edit_mode == EditMode::Insert {
            submit = self.send_message();
        }
        self.session.apply_layout(max_offset, viewport_height);
        self.poll_history(history_result);
        proof {
            lemma_wf_bounds(self.dispatcher);
        }
        self.poll_chat();
        proof {
            let stepped = spec_frame_tick(
                old(self)@,
                refresh_clicked,
                inp,
                send_requested,
                max_offset,
                viewport_height,
                opt_hist_res_view(history_result),
            );
            assert(self@ =~= stepped.0);
        }
        FrameActions { submit, start_history_fetch: started_any }
    }
}

/// The busy flag is a single permit over the two slow operations: it
/// reads `AwaitingChat` exactly when one chat request is outstanding,
/// `AwaitingHistory` exactly when one history fetch is in flight, the
/// two are never outstanding together, and `Idle` means neither is.
pub proof fn lemma_busy_single_permit(c: ChatClient)
    requires
        c.wf(),
    ensures
        c.session@.busy == BusyState::AwaitingChat <==> c.dispatcher.outstanding() == 1,
        c.session@.busy == BusyState::AwaitingHistory <==> c.history_fetch_active,
        !(c.dispatcher.outstanding() == 1 && c.history_fetch_active),
        c.session@.busy == BusyState::Idle <==> (c.dispatcher.outstanding() == 0
            && !c.history_fetch_active),
{
    lemma_wf_bounds(c.dispatcher);
}

} // verus!
