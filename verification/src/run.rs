//! The aggregation state folded over the child's output lines, and the
//! final verdict built from that state plus the child's exit outcome.
//!
//! The whole run is an explicit fold: a step function takes the running
//! state and one decoded line, and a separate finalize function takes the
//! final state and the exit outcome.  The supervisor loop outside the
//! library only reads lines, feeds them here one at a time, and stops when
//! told to.

use vstd::prelude::*;

use crate::events::Event;
use crate::events::EventModel;
use crate::events::decode_line;
use crate::events::event_of;
use crate::events::json_err_of;
use crate::events::json_ok;
use crate::text::contains_seq;
use crate::text::contains_substr;
use crate::text::starts_with_seq;
use crate::text::starts_with_str;
use crate::text::str_eq;
use crate::text::trim_spec;
use crate::text::trim_str;

verus! {

// ---------------------------------------------------------------------------
// State
// ---------------------------------------------------------------------------

/// The accumulator for one run.  Owned by a single consumption loop, never
/// shared across runs.
pub struct RunState {
    /// Ordered concatenation of agent-authored reply fragments.
    pub agent_messages: String,
    /// Session identity; last observed value wins.
    pub thread_id: Option<String>,
    /// Concatenation of every failure annotation, in arrival order.
    pub err_message: String,
    /// Every successfully decoded line, kept verbatim; present only when
    /// retention was requested.
    pub all_messages: Option<Vec<String>>,
    /// The verdict so far: true until some failure is observed, and false
    /// from then on.
    pub success: bool,
}

/// Mathematical image of the accumulator.
#[verifier::ext_equal]
pub struct RunStateModel {
    pub agent_messages: Seq<char>,
    pub thread_id: Option<Seq<char>>,
    pub err_message: Seq<char>,
    pub all_messages: Option<Seq<Seq<char>>>,
    pub success: bool,
}

impl View for RunState {
    type V = RunStateModel;

    open spec fn view(&self) -> RunStateModel {
        RunStateModel {
            agent_messages: self.agent_messages@,
            thread_id: self.thread_id.deep_view(),
            err_message: self.err_message@,
            all_messages: self.all_messages.deep_view(),
            success: self.success,
        }
    }
}

/// The state at the start of a run: empty accumulators, a provisional
/// success verdict, and retention on iff requested.
pub open spec fn init_state(retain: bool) -> RunStateModel {
    RunStateModel {
        agent_messages: Seq::empty(),
        thread_id: None,
        err_message: Seq::empty(),
        all_messages: if retain {
            Some(Seq::<Seq<char>>::empty())
        } else {
            None
        },
        success: true,
    }
}

// ---------------------------------------------------------------------------
// The per-line step, in specification
// ---------------------------------------------------------------------------

/// The line is an agent reply fragment: its item is an agent message and
/// carries text.
pub open spec fn is_agent_reply(ev: EventModel) -> bool {
    ev.item_type == Some("agent_message"@) && ev.item_text is Some
}

/// The annotation appended for a child-reported failure or error.
pub open spec fn child_error_note(m: Seq<char>) -> Seq<char> {
    "\n\n[codex error] "@ + m
}

/// Retention: a successfully decoded line is kept verbatim when asked for.
pub open spec fn retain_step(st: RunStateModel, raw: Seq<char>) -> RunStateModel {
    match st.all_messages {
        Some(all) => RunStateModel { all_messages: Some(all.push(raw)), ..st },
        None => st,
    }
}

/// Reply extraction: an agent reply fragment is appended to the
/// accumulated reply.
pub open spec fn reply_step(st: RunStateModel, ev: EventModel) -> RunStateModel {
    if is_agent_reply(ev) {
        RunStateModel {
            agent_messages: st.agent_messages + match ev.item_text {
                Some(t) => t,
                None => Seq::empty(),
            },
            ..st
        }
    } else {
        st
    }
}

/// Session identity: an observed thread identity overwrites any prior one.
pub open spec fn thread_step(st: RunStateModel, ev: EventModel) -> RunStateModel {
    match ev.thread_id {
        Some(t) => RunStateModel { thread_id: Some(t), ..st },
        None => st,
    }
}

/// Classification of the event's type: a type containing "fail" flips the
/// verdict and logs the nested error message if present; otherwise a type
/// containing "error" flips the verdict and logs the top-level message if
/// present, except for the transient reconnect notice, which is ignored
/// entirely.
pub open spec fn kind_step(st: RunStateModel, ev: EventModel) -> RunStateModel {
    match ev.event_type {
        Some(t) => if contains_seq(t, "fail"@) {
            match ev.error_message {
                Some(m) => RunStateModel {
                    success: false,
                    err_message: st.err_message + child_error_note(m),
                    ..st
                },
                None => RunStateModel { success: false, ..st },
            }
        } else if contains_seq(t, "error"@) {
            match ev.message {
                Some(m) => if starts_with_seq(m, "Reconnecting..."@) {
                    st
                } else {
                    RunStateModel {
                        success: false,
                        err_message: st.err_message + child_error_note(m),
                        ..st
                    }
                },
                None => st,
            }
        } else {
            st
        },
        None => st,
    }
}

/// One successfully decoded line folded into the state.
pub open spec fn event_step(st: RunStateModel, ev: EventModel, raw: Seq<char>) -> RunStateModel {
    kind_step(thread_step(reply_step(retain_step(st, raw), ev), ev), ev)
}

/// After this event the loop stops consuming: the turn is complete.
pub open spec fn event_stops(ev: EventModel) -> bool {
    ev.event_type == Some("turn.completed"@)
}

/// A line the decoder rejects: annotated, the verdict flipped, the run
/// otherwise unaffected.
pub open spec fn decode_fail_step(st: RunStateModel, err: Seq<char>, raw: Seq<char>) -> RunStateModel {
    RunStateModel {
        success: false,
        err_message: st.err_message + "\n\n[json decode error] "@ + err + ": "@ + raw,
        ..st
    }
}

/// One trimmed, non-empty line folded into the state.
pub open spec fn line_step(st: RunStateModel, line: Seq<char>) -> RunStateModel {
    if json_ok(line) {
        event_step(st, event_of(line), line)
    } else {
        decode_fail_step(st, json_err_of(line), line)
    }
}

/// After this trimmed, non-empty line the loop stops consuming.
pub open spec fn line_stops(line: Seq<char>) -> bool {
    json_ok(line) && event_stops(event_of(line))
}

/// One raw line folded into the state: trimmed first, skipped when nothing
/// is left.
pub open spec fn raw_line_step(st: RunStateModel, raw: Seq<char>) -> RunStateModel {
    if trim_spec(raw).len() == 0 {
        st
    } else {
        line_step(st, trim_spec(raw))
    }
}

/// After this raw line the loop stops consuming.
pub open spec fn raw_line_stops(raw: Seq<char>) -> bool {
    trim_spec(raw).len() > 0 && line_stops(trim_spec(raw))
}

/// A whole sequence of raw lines folded into the state, in emission order,
/// stopping early at a completion marker.
pub open spec fn lines_fold(st: RunStateModel, lines: Seq<Seq<char>>) -> RunStateModel
    decreases lines.len(),
{
    if lines.len() == 0 {
        st
    } else {
        let st1 = raw_line_step(st, lines[0]);
        if raw_line_stops(lines[0]) {
            st1
        } else {
            lines_fold(st1, lines.drop_first())
        }
    }
}

// ---------------------------------------------------------------------------
// The per-line step, executable
// ---------------------------------------------------------------------------

impl RunState {
    /// A fresh accumulator; retention is on iff `retain`.
    pub fn new(retain: bool) -> (r: RunState)
        ensures
            r@ == init_state(retain),
    {
        let r = RunState {
            agent_messages: String::new(),
            thread_id: None,
            err_message: String::new(),
            all_messages: if retain {
                Some(Vec::new())
            } else {
                None
            },
            success: true,
        };
        proof {
            assert(r@ =~~= init_state(retain));
        }
        r
    }

    /// Folds one successfully decoded event into the state; `raw` is the
    /// line it was decoded from.  Returns whether the consumption loop
    /// should stop.
    fn apply_event(&mut self, ev: &Event, raw: &str) -> (stop: bool)
        ensures
            final(self)@ == event_step(old(self)@, ev@, raw@),
            stop == event_stops(ev@),
    {
        let ghost st0 = self@;
        match &mut self.all_messages {
            Some(all) => {
                all.push(String::from_str(raw));
            },
            None => {},
        }
        proof {
            assert(self@ =~~= retain_step(st0, raw@));
        }
        let ghost st1 = retain_step(st0, raw@);
        match &self.item_reply_text(ev) {
            Some(t) => {
                self.agent_messages.append(t.as_str());
            },
            None => {},
        }
        proof {
            assert(self@ =~~= reply_step(st1, ev@));
        }
        let ghost st2 = reply_step(st1, ev@);
        match &ev.thread_id {
            Some(t) => {
                self.thread_id = Some(t.clone());
            },
            None => {},
        }
        proof {
            assert(self@ =~~= thread_step(st2, ev@));
        }
        let ghost st3 = thread_step(st2, ev@);
        match &ev.event_type {
            Some(t) => {
                if contains_substr(t.as_str(), "fail") {
                    self.success = false;
                    match &ev.error_message {
                        Some(m) => {
                            self.err_message.append("\n\n[codex error] ");
                            self.err_message.append(m.as_str());
                        },
                        None => {},
                    }
                } else if contains_substr(t.as_str(), "error") {
                    match &ev.message {
                        Some(m) => {
                            if !starts_with_str(m.as_str(), "Reconnecting...") {
                                self.success = false;
                                self.err_message.append("\n\n[codex error] ");
                                self.err_message.append(m.as_str());
                            }
                        },
                        None => {},
                    }
                }
            },
            None => {},
        }
        proof {
            assert(self@ =~~= kind_step(st3, ev@));
        }
        match &ev.event_type {
            Some(t) => str_eq(t.as_str(), "turn.completed"),
            None => false,
        }
    }

    /// The reply fragment this event carries, if it is an agent message
    /// with text.
    fn item_reply_text<'a>(&self, ev: &'a Event) -> (r: &'a Option<String>)
        ensures
            is_agent_reply(ev@) ==> r == &ev.item_text,
            !is_agent_reply(ev@) ==> r is None,
    {
        match &ev.item_type {
            Some(t) => {
                if str_eq(t.as_str(), "agent_message") {
                    match &ev.item_text {
                        Some(_) => &ev.item_text,
                        None => &None,
                    }
                } else {
                    &None
                }
            },
            None => &None,
        }
    }

    /// Folds one trimmed, non-empty line into the state: decoded if
    /// possible, otherwise logged as a decode failure and skipped.  Returns
    /// whether the consumption loop should stop.
    pub fn apply_line(&mut self, line: &str) -> (stop: bool)
        ensures
            final(self)@ == line_step(old(self)@, line@),
            stop == line_stops(line@),
    {
        let ghost st0 = self@;
        match decode_line(line) {
            Ok(ev) => self.apply_event(&ev, line),
            Err(e) => {
                self.success = false;
                self.err_message.append("\n\n[json decode error] ");
                self.err_message.append(e.as_str());
                self.err_message.append(": ");
                self.err_message.append(line);
                proof {
                    assert(self@ =~~= decode_fail_step(st0, json_err_of(line@), line@));
                }
                false
            },
        }
    }

    /// Folds one raw line into the state: trimmed of surrounding
    /// whitespace first and skipped entirely when nothing is left.
    /// Returns whether the consumption loop should stop.
    pub fn apply_raw_line(&mut self, raw: &str) -> (stop: bool)
        ensures
            final(self)@ == raw_line_step(old(self)@, raw@),
            stop == raw_line_stops(raw@),
    {
        let t = trim_str(raw);
        if t.as_str().is_empty() {
            false
        } else {
            self.apply_line(t.as_str())
        }
    }

    /// Folds a whole sequence of raw lines into the state, in order,
    /// stopping early at a completion marker.
    pub fn process_lines(&mut self, lines: &Vec<String>)
        ensures
            final(self)@ == lines_fold(old(self)@, lines.deep_view()),
    {
        let ghost dv = lines.deep_view();
        proof {
            assert(dv.skip(0) =~= dv);
        }
        let n = lines.len();
        let mut i: usize = 0;
        let mut stopped = false;
        while i < n && !stopped
            invariant
                i <= n,
                n == dv.len(),
                dv == lines.deep_view(),
                !stopped ==> lines_fold(old(self)@, dv) == lines_fold(self@, dv.skip(i as int)),
                stopped ==> lines_fold(old(self)@, dv) == self@,
            decreases n - i,
        {
            let ghost pre = self@;
            let stop = self.apply_raw_line(lines[i].as_str());
            proof {
                assert(dv.skip(i as int).len() > 0);
                assert(dv.skip(i as int)[0] == dv[i as int]);
                assert(dv.skip(i as int).drop_first() =~= dv.skip(i + 1));
                assert(dv[i as int] == lines[i as int]@);
            }
            stopped = stop;
            i += 1;
        }
        proof {
            if !stopped {
                assert(dv.skip(n as int) =~= Seq::<Seq<char>>::empty());
            }
        }
    }
}

// ---------------------------------------------------------------------------
// Exit outcome and finalization
// ---------------------------------------------------------------------------

/// What the supervisor observed when waiting for the child's exit after the
/// stream ended, under the fixed ceiling.
pub enum ExitOutcome {
    /// The child exited within the ceiling; `ok` is whether the status was
    /// success, `status` its display form (read only on failure).
    Exited { ok: bool, status: String },
    /// The wait operation itself failed; `error` is its display form.
    WaitError { error: String },
    /// The ceiling elapsed with no exit and the child was forcibly killed;
    /// `ceiling` is the ceiling's display form.
    WaitTimeout { ceiling: String },
}

/// Mathematical image of an exit outcome.
#[verifier::ext_equal]
pub enum ExitModel {
    Exited { ok: bool, status: Seq<char> },
    WaitError { error: Seq<char> },
    WaitTimeout { ceiling: Seq<char> },
}

impl View for ExitOutcome {
    type V = ExitModel;

    open spec fn view(&self) -> ExitModel {
        match self {
            ExitOutcome::Exited { ok, status } => ExitModel::Exited {
                ok: *ok,
                status: status@,
            },
            ExitOutcome::WaitError { error } => ExitModel::WaitError { error: error@ },
            ExitOutcome::WaitTimeout { ceiling } => ExitModel::WaitTimeout { ceiling: ceiling@ },
        }
    }
}

/// The single value returned to the caller, built exactly once per run.
pub struct CodexResult {
    /// Whether the execution was successful.
    pub success: bool,
    /// Session identity for resuming the conversation.
    pub session_id: Option<String>,
    /// The agent's accumulated reply, when any was captured.
    pub agent_messages: Option<String>,
    /// The full annotation log, absent on success.
    pub error: Option<String>,
    /// Every retained line, present only when retention was requested.
    pub all_messages: Option<Vec<String>>,
}

/// Mathematical image of a run result.
#[verifier::ext_equal]
pub struct ResultModel {
    pub success: bool,
    pub session_id: Option<Seq<char>>,
    pub agent_messages: Option<Seq<char>>,
    pub error: Option<Seq<char>>,
    pub all_messages: Option<Seq<Seq<char>>>,
}

impl View for CodexResult {
    type V = ResultModel;

    open spec fn view(&self) -> ResultModel {
        ResultModel {
            success: self.success,
            session_id: self.session_id.deep_view(),
            agent_messages: self.agent_messages.deep_view(),
            error: self.error.deep_view(),
            all_messages: self.all_messages.deep_view(),
        }
    }
}

/// The exit outcome merged into the state: a failing status, a wait error
/// and a wait timeout each flip the verdict and log their own annotation.
pub open spec fn exit_step(st: RunStateModel, ex: ExitModel) -> RunStateModel {
    match ex {
        ExitModel::Exited { ok, status } => if ok {
            st
        } else {
            RunStateModel {
                success: false,
                err_message: st.err_message + "\n\n[codex exit] "@ + status,
                ..st
            }
        },
        ExitModel::WaitError { error } => RunStateModel {
            success: false,
            err_message: st.err_message + "\n\n[codex wait error] "@ + error,
            ..st
        },
        ExitModel::WaitTimeout { ceiling } => RunStateModel {
            success: false,
            err_message: st.err_message + "\n\n[codex wait timeout] "@ + ceiling,
            ..st
        },
    }
}

/// The missing-session postcondition check: without a session identity the
/// run cannot have succeeded, and a distinguishing annotation is prepended.
pub open spec fn session_check(st: RunStateModel) -> RunStateModel {
    if st.thread_id is None {
        RunStateModel {
            success: false,
            err_message: "Failed to get `SESSION_ID` from the codex session.\n\n"@
                + st.err_message,
            ..st
        }
    } else {
        st
    }
}

/// The missing-reply postcondition check: with no reply captured the run
/// cannot have succeeded, and a distinguishing annotation suggesting
/// retention is prepended.
pub open spec fn reply_check(st: RunStateModel) -> RunStateModel {
    if st.agent_messages.len() == 0 {
        RunStateModel {
            success: false,
            err_message:
                "Failed to get `agent_messages` from the codex session.\n\nYou can try to set `return_all_messages` to `True` to get the full reasoning information. "@
                + st.err_message,
            ..st
        }
    } else {
        st
    }
}

/// The result built from a fully checked state: on success the reply and
/// the session identity are populated and the error is absent; on failure
/// the error holds the whole annotation log, while the reply and the
/// session identity are still included when they were captured.
pub open spec fn result_of(st: RunStateModel) -> ResultModel {
    if st.success {
        ResultModel {
            success: true,
            session_id: st.thread_id,
            agent_messages: Some(st.agent_messages),
            error: None,
            all_messages: st.all_messages,
        }
    } else {
        ResultModel {
            success: false,
            session_id: st.thread_id,
            agent_messages: if st.agent_messages.len() == 0 {
                None
            } else {
                Some(st.agent_messages)
            },
            error: Some(st.err_message),
            all_messages: st.all_messages,
        }
    }
}

/// The whole finalization: merge the exit outcome, run both postcondition
/// checks, build the result.
pub open spec fn finalize_spec(st: RunStateModel, ex: ExitModel) -> ResultModel {
    result_of(reply_check(session_check(exit_step(st, ex))))
}

impl RunState {
    /// Builds the run's single result from the final state and the exit
    /// outcome the supervisor observed.
    pub fn finalize(self, exit: ExitOutcome) -> (r: CodexResult)
        ensures
            r@ == finalize_spec(self@, exit@),
    {
        let ghost st0 = self@;
        let RunState { agent_messages, thread_id, mut err_message, all_messages, mut success } =
            self;
        match &exit {
            ExitOutcome::Exited { ok, status } => {
                if !*ok {
                    success = false;
                    err_message.append("\n\n[codex exit] ");
                    err_message.append(status.as_str());
                }
            },
            ExitOutcome::WaitError { error } => {
                success = false;
                err_message.append("\n\n[codex wait error] ");
                err_message.append(error.as_str());
            },
            ExitOutcome::WaitTimeout { ceiling } => {
                success = false;
                err_message.append("\n\n[codex wait timeout] ");
                err_message.append(ceiling.as_str());
            },
        }
        proof {
            assert(RunStateModel {
                agent_messages: agent_messages@,
                thread_id: thread_id.deep_view(),
                err_message: err_message@,
                all_messages: all_messages.deep_view(),
                success,
            } =~~= exit_step(st0, exit@));
        }
        let ghost st1 = exit_step(st0, exit@);
        if thread_id.is_none() {
            success = false;
            let mut note = String::from_str(
                "Failed to get `SESSION_ID` from the codex session.\n\n",
            );
            note.append(err_message.as_str());
            err_message = note;
        }
        proof {
            assert(RunStateModel {
                agent_messages: agent_messages@,
                thread_id: thread_id.deep_view(),
                err_message: err_message@,
                all_messages: all_messages.deep_view(),
                success,
            } =~~= session_check(st1));
        }
        let ghost st2 = session_check(st1);
        if agent_messages.as_str().is_empty() {
            success = false;
            let mut note = String::from_str(
                "Failed to get `agent_messages` from the codex session.\n\nYou can try to set `return_all_messages` to `True` to get the full reasoning information. ",
            );
            note.append(err_message.as_str());
            err_message = note;
        }
        proof {
            assert(RunStateModel {
                agent_messages: agent_messages@,
                thread_id: thread_id.deep_view(),
                err_message: err_message@,
                all_messages: all_messages.deep_view(),
                success,
            } =~~= reply_check(st2));
        }
        let r = if success {
            CodexResult {
                success: true,
                session_id: thread_id,
                agent_messages: Some(agent_messages),
                error: None,
                all_messages,
            }
        } else {
            CodexResult {
                success: false,
                session_id: thread_id,
                agent_messages: if agent_messages.as_str().is_empty() {
                    None
                } else {
                    Some(agent_messages)
                },
                error: Some(err_message),
                all_messages,
            }
        };
        proof {
            assert(r@ =~~= finalize_spec(st0, exit@));
        }
        r
    }
}

// ---------------------------------------------------------------------------
// Laws
// ---------------------------------------------------------------------------

/// A false verdict is permanent across one more raw line: no line flips it
/// back.
pub proof fn lemma_step_failure_permanent(st: RunStateModel, raw: Seq<char>)
    ensures
        !st.success ==> !raw_line_step(st, raw).success,
{
}

/// A false verdict is permanent across the rest of the stream: once some
/// failure was observed, no suffix of lines makes the fold succeed.
pub proof fn lemma_fold_failure_permanent(st: RunStateModel, lines: Seq<Seq<char>>)
    ensures
        !st.success ==> !lines_fold(st, lines).success,
    decreases lines.len(),
{
    if lines.len() > 0 {
        lemma_step_failure_permanent(st, lines[0]);
        lemma_fold_failure_permanent(raw_line_step(st, lines[0]), lines.drop_first());
    }
}

/// A false verdict is permanent through finalization: whatever the exit
/// outcome, the result of a failed run reports failure.
pub proof fn lemma_finalize_failure_permanent(st: RunStateModel, ex: ExitModel)
    ensures
        !st.success ==> !finalize_spec(st, ex).success,
{
}

/// The accumulators are append-only: folding one raw line keeps the old
/// reply and the old annotation log as prefixes, and keeps every retained
/// event, in order.
pub proof fn lemma_step_append_only(st: RunStateModel, raw: Seq<char>)
    ensures
        raw_line_step(st, raw).agent_messages.len() >= st.agent_messages.len(),
        raw_line_step(st, raw).agent_messages.take(st.agent_messages.len() as int)
            == st.agent_messages,
        raw_line_step(st, raw).err_message.len() >= st.err_message.len(),
        raw_line_step(st, raw).err_message.take(st.err_message.len() as int) == st.err_message,
        st.all_messages matches Some(all) ==> raw_line_step(st, raw).all_messages matches Some(
            all2,
        ) && all2.take(all.len() as int) == all,
{
    let st2 = raw_line_step(st, raw);
    assert(st2.agent_messages.take(st.agent_messages.len() as int) =~= st.agent_messages);
    assert(st2.err_message.take(st.err_message.len() as int) =~= st.err_message);
    if st.all_messages is Some {
        let all = st.all_messages->Some_0;
        assert(st2.all_messages is Some);
        assert((st2.all_messages->Some_0).take(all.len() as int) =~= all);
    }
}

} // verus!
