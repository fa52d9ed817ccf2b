//! The per-session interaction state machine.
//!
//! A session owns one lazy paginator and reacts to typed navigation events
//! until it is finalized.  The event loop itself (waiting on a transport,
//! arming timers, pushing rendered updates) is outside work; what stands
//! here is the pure decision: from the current state and one event to the
//! next state and the action the loop must perform.
//!
//! The idle deadline is sliding.  Rather than owning a clock, a session
//! tells its loop after every event whether to re-arm the deadline: it
//! re-arms exactly after a processed navigation attempt — a successful
//! move, a boundary re-render, or a reported error — and never after an
//! ignored event, an unanswered jump prompt, or finalization, so an
//! unanswered jump attempt cannot extend the session.

use vstd::prelude::*;

use crate::digits::{dec_rep, dec_value, parse_usize, parseable, usize_to_string};
use crate::paginate::{nav_post, PaginateEmbedsLazily};
use crate::source::PageSource;
use crate::NavError;

verus! {

/// Where a session stands.
///
/// `Idle` waits for the next navigation event under the idle deadline.
/// `AwaitingJumpInput` waits, under a shorter bounded deadline, for the
/// numeric submission of the jump sub-flow.  `Finalizing` is terminal: it
/// is entered at most once, and no further event is processed.
#[derive(Clone, Copy, PartialEq, Eq, Structural, Debug)]
pub enum SessionPhase {
    Idle,
    AwaitingJumpInput,
    Finalizing,
}

/// One user-originated or timer-originated event.
#[derive(Debug)]
pub enum EventKind {
    First,
    Previous,
    Next,
    Last,
    JumpRequest,
    JumpSubmit(String),
    JumpTimeout,
    IdleTimeout,
    Close,
}

/// An event addressed to a session.  Events whose identifier is not the
/// session's own are ignored outright.
#[derive(Debug)]
pub struct SessionEvent {
    pub session_id: u64,
    pub kind: EventKind,
}

/// What the event loop must do after an event was handled.
///
/// `PushUpdate` re-renders the current page with freshly computed
/// controls; `OpenJumpPrompt` opens the time-boxed numeric input; the
/// `Report` actions surface an error to the acting user only; and
/// `FinalizeRender` renders the current page with every control disabled
/// and exits the loop.
#[derive(Clone, Copy, PartialEq, Eq, Structural, Debug)]
pub enum SessionAction {
    Ignore,
    PushUpdate,
    OpenJumpPrompt,
    ReportNotFound,
    ReportOutOfRange { min: usize, max: usize },
    ReportParseError,
    FinalizeRender,
}

/// The action to perform and whether the sliding idle deadline is re-armed.
#[derive(Clone, Copy, PartialEq, Eq, Structural, Debug)]
pub struct SessionOutput {
    pub action: SessionAction,
    pub rearm_idle: bool,
}

/// Runtime configuration of one session.
#[derive(Clone, Copy, PartialEq, Eq, Structural, Debug)]
pub struct SessionConfig {
    pub session_id: u64,
    pub idle_timeout_ms: u64,
    pub jump_timeout_ms: u64,
    pub cache_capacity: usize,
}

/// The phase reached by handling one event of the given kind.  The phase
/// never depends on whether page generation succeeds, only on where the
/// session stands and what arrived; `Finalizing` absorbs everything.
pub open spec fn phase_step(p: SessionPhase, k: EventKind) -> SessionPhase {
    match p {
        SessionPhase::Finalizing => SessionPhase::Finalizing,
        _ => match k {
            EventKind::IdleTimeout => SessionPhase::Finalizing,
            EventKind::Close => SessionPhase::Finalizing,
            EventKind::JumpRequest => SessionPhase::AwaitingJumpInput,
            _ => SessionPhase::Idle,
        },
    }
}

/// Whether handling one event of kind `k` finalizes a session standing at
/// phase `p`.
pub open spec fn finalizes(p: SessionPhase, k: EventKind) -> bool {
    p != SessionPhase::Finalizing && phase_step(p, k) == SessionPhase::Finalizing
}

/// The two cancellation triggers: the idle deadline and the explicit
/// close signal.
pub open spec fn is_termination_event(k: EventKind) -> bool {
    k is IdleTimeout || k is Close
}

/// What a navigation attempt at index `at` left behind: either the move
/// succeeded and the loop pushes an update, or generation failed, nothing
/// changed, and the failure is reported.
pub open spec fn nav_attempt<T, G>(
    pre: PaginateEmbedsLazily<T, G>,
    post: PaginateEmbedsLazily<T, G>,
    at: usize,
    action: SessionAction,
) -> bool {
    ||| (action == SessionAction::PushUpdate && nav_post(pre, post, at, Ok::<(), NavError>(())))
    ||| (action == SessionAction::ReportNotFound && nav_post(
        pre,
        post,
        at,
        Err::<(), NavError>(NavError::NotFound),
    ))
}

/// The enabled state of each rendered control.
#[derive(Clone, Copy, PartialEq, Eq, Structural, Debug)]
pub struct ControlFlags {
    pub first_enabled: bool,
    pub previous_enabled: bool,
    pub next_enabled: bool,
    pub last_enabled: bool,
    pub jump_enabled: bool,
}

/// The controls for position `index` in a sequence of `total` pages:
/// backward moves are possible above the first page, forward moves below
/// the last, and the jump sub-flow whenever more than one page exists.
/// On finalization everything is disabled, unconditionally.
pub fn control_flags(index: usize, total: usize, disable_all: bool) -> (r: ControlFlags)
    ensures
        r.first_enabled == (!disable_all && index > 0),
        r.previous_enabled == (!disable_all && index > 0),
        r.next_enabled == (!disable_all && index + 1 < total),
        r.last_enabled == (!disable_all && index + 1 < total),
        r.jump_enabled == (!disable_all && total > 1),
{
    let backward = !disable_all && index > 0;
    let forward = !disable_all && total > 0 && index < total - 1;
    ControlFlags {
        first_enabled: backward,
        previous_enabled: backward,
        next_enabled: forward,
        last_enabled: forward,
        jump_enabled: !disable_all && total > 1,
    }
}

/// The counter shown between the controls: the 1-based position over the
/// page count, as in `3 / 25`.
pub fn counter_label(index: usize, total: usize) -> (r: String)
    requires
        index < total,
    ensures
        r@ == dec_rep((index + 1) as nat) + seq![' ', '/', ' '] + dec_rep(total as nat),
{
    let mut label = usize_to_string(index + 1);
    label.append(" / ");
    let rest = usize_to_string(total);
    label.append(rest.as_str());
    proof {
        reveal_strlit(" / ");
        assert(" / "@ =~= seq![' ', '/', ' ']);
        assert(label@ =~= dec_rep((index + 1) as nat) + seq![' ', '/', ' '] + dec_rep(
            total as nat,
        ));
    }
    label
}

/// Map the outcome of a bounded navigation call to the loop's action.
/// A boundary is not an error: the same page is pushed again with freshly
/// computed controls.  Every outcome re-arms the idle deadline, because a
/// navigation attempt is a legitimate user action.
fn nav_outcome(res: Result<(), NavError>) -> (r: SessionOutput)
    requires
        res matches Err(e) ==> e is Boundary || e is NotFound,
    ensures
        res is Ok || res == Err::<(), NavError>(NavError::Boundary) ==> r.action
            == SessionAction::PushUpdate,
        res == Err::<(), NavError>(NavError::NotFound) ==> r.action
            == SessionAction::ReportNotFound,
        r.rearm_idle,
{
    match res {
        Ok(_) => SessionOutput { action: SessionAction::PushUpdate, rearm_idle: true },
        Err(NavError::Boundary) => SessionOutput {
            action: SessionAction::PushUpdate,
            rearm_idle: true,
        },
        Err(NavError::NotFound) => SessionOutput {
            action: SessionAction::ReportNotFound,
            rearm_idle: true,
        },
        Err(NavError::OutOfRange { .. }) => {
            proof {
                assert(false);
            }
            SessionOutput { action: SessionAction::Ignore, rearm_idle: false }
        },
    }
}

/// One user's live navigation instance: a lazy paginator together with the
/// session phase and configuration, driven by `handle_event`.
pub struct LazyEmbedPaginator<T, G> {
    paginator: PaginateEmbedsLazily<T, G>,
    phase: SessionPhase,
    config: SessionConfig,
}

impl<T, G> LazyEmbedPaginator<T, G> {
    /// The paginator, as a value.
    pub closed spec fn nav(&self) -> PaginateEmbedsLazily<T, G> {
        self.paginator
    }

    /// The session's phase.
    pub closed spec fn phase(&self) -> SessionPhase {
        self.phase
    }

    /// The session's configuration.
    pub closed spec fn cfg(&self) -> SessionConfig {
        self.config
    }

    /// A session exists only over a nonempty sequence, and its paginator
    /// stays well formed.
    pub open spec fn wf(&self) -> bool {
        &&& self.nav().wf()
        &&& self.nav().total() >= 1
    }
}

impl<T, G: PageSource<T>> LazyEmbedPaginator<T, G> {
    /// A fresh session in `Idle` over `length` pages produced by `source`.
    /// Nothing is fetched yet; `start` performs the initial fetch of
    /// page 0.
    pub fn new(source: G, length: usize, config: SessionConfig) -> (r: Self)
        requires
            length >= 1,
            config.cache_capacity >= 1,
        ensures
            r.wf(),
            r.phase() == SessionPhase::Idle,
            r.cfg() == config,
            r.nav().total() == length,
            r.nav().idx() == 0,
            r.nav().cache_model() == Seq::<crate::cache::CacheEntry<T>>::empty(),
            r.nav().cache_cap() == config.cache_capacity,
            r.nav().src() == source,
    {
        Self {
            paginator: PaginateEmbedsLazily::new(length, source, config.cache_capacity),
            phase: SessionPhase::Idle,
            config,
        }
    }

    /// Verify that page 0 is producible and move there, so that the
    /// initial message can be rendered.  On `NotFound` nothing has been
    /// shown and the caller abandons the session.
    pub fn start(&mut self) -> (r: Result<(), NavError>)
        requires
            old(self).wf(),
            old(self).phase() == SessionPhase::Idle,
        ensures
            final(self).wf(),
            final(self).phase() == SessionPhase::Idle,
            final(self).cfg() == old(self).cfg(),
            nav_post(old(self).nav(), final(self).nav(), 0, r),
            r is Err ==> r == Err::<(), NavError>(NavError::NotFound),
    {
        self.paginator.first_page()
    }

    pub fn session_id(&self) -> (r: u64)
        ensures
            r == self.cfg().session_id,
    {
        self.config.session_id
    }

    pub fn idle_timeout_ms(&self) -> (r: u64)
        ensures
            r == self.cfg().idle_timeout_ms,
    {
        self.config.idle_timeout_ms
    }

    pub fn jump_timeout_ms(&self) -> (r: u64)
        ensures
            r == self.cfg().jump_timeout_ms,
    {
        self.config.jump_timeout_ms
    }

    pub fn current_phase(&self) -> (r: SessionPhase)
        ensures
            r == self.phase(),
    {
        self.phase
    }

    pub fn len(&self) -> (r: usize)
        ensures
            r == self.nav().total(),
    {
        self.paginator.len()
    }

    pub fn current_idx(&self) -> (r: usize)
        ensures
            r == self.nav().idx(),
    {
        self.paginator.current_idx()
    }

    /// The page at the current position, if resident; present from a
    /// successful `start` on.
    pub fn current_page(&self) -> (r: Option<&T>)
        requires
            self.wf(),
        ensures
            match r {
                Some(v) => self.nav().cached(self.nav().idx()) && *v == crate::cache::value_of(
                    self.nav().cache_model(),
                    self.nav().idx(),
                ),
                None => !self.nav().cached(self.nav().idx()),
            },
    {
        self.paginator.current_page()
    }

    /// The enabled state of the controls for the session as it stands.
    pub fn controls(&self) -> (r: ControlFlags)
        requires
            self.wf(),
        ensures
            r == (ControlFlags {
                first_enabled: self.phase() != SessionPhase::Finalizing && self.nav().idx() > 0,
                previous_enabled: self.phase() != SessionPhase::Finalizing && self.nav().idx()
                    > 0,
                next_enabled: self.phase() != SessionPhase::Finalizing && self.nav().idx() + 1
                    < self.nav().total(),
                last_enabled: self.phase() != SessionPhase::Finalizing && self.nav().idx() + 1
                    < self.nav().total(),
                jump_enabled: self.phase() != SessionPhase::Finalizing && self.nav().total() > 1,
            }),
    {
        let disable_all = self.phase == SessionPhase::Finalizing;
        control_flags(self.paginator.current_idx(), self.paginator.len(), disable_all)
    }

    /// Handle one event: decide the next phase and the action the loop
    /// performs.
    ///
    /// An event carrying a foreign session identifier changes nothing.  A
    /// finalized session processes nothing further, so finalization — and
    /// with it the one `FinalizeRender` — happens at most once, however
    /// many timer signals arrive.  Navigation events move the paginator
    /// under its own contract; a jump submission is parsed as a 1-based
    /// page number and checked against the page count before the 0-based
    /// jump is attempted.
    pub fn handle_event(&mut self, ev: SessionEvent) -> (r: SessionOutput)
        requires
            old(self).wf(),
        ensures
            final(self).wf(),
            final(self).cfg() == old(self).cfg(),
            final(self).nav().total() == old(self).nav().total(),
            final(self).nav().cache_cap() == old(self).nav().cache_cap(),
            r.rearm_idle == (r.action is PushUpdate || r.action is ReportNotFound
                || r.action is ReportOutOfRange || r.action is ReportParseError),
            ev.session_id != old(self).cfg().session_id ==> *final(self) == *old(self)
                && r.action == SessionAction::Ignore,
            ev.session_id == old(self).cfg().session_id ==> final(self).phase() == phase_step(
                old(self).phase(),
                ev.kind,
            ),
            (r.action == SessionAction::FinalizeRender) == (ev.session_id == old(
                self,
            ).cfg().session_id && finalizes(old(self).phase(), ev.kind)),
            old(self).phase() == SessionPhase::Finalizing ==> *final(self) == *old(self)
                && r.action == SessionAction::Ignore,
            ev.session_id == old(self).cfg().session_id && old(self).phase()
                != SessionPhase::Finalizing ==> {
                let o = old(self).nav();
                let f = final(self).nav();
                &&& (ev.kind is First ==> nav_attempt(o, f, 0, r.action))
                &&& (ev.kind is Previous && o.idx() == 0 ==> r.action
                    == SessionAction::PushUpdate && f == o)
                &&& (ev.kind is Previous && o.idx() > 0 ==> nav_attempt(
                    o,
                    f,
                    (o.idx() - 1) as usize,
                    r.action,
                ))
                &&& (ev.kind is Next && o.idx() + 1 >= o.total() ==> r.action
                    == SessionAction::PushUpdate && f == o)
                &&& (ev.kind is Next && o.idx() + 1 < o.total() ==> nav_attempt(
                    o,
                    f,
                    (o.idx() + 1) as usize,
                    r.action,
                ))
                &&& (ev.kind is Last ==> nav_attempt(o, f, (o.total() - 1) as usize, r.action))
                &&& (ev.kind is JumpRequest ==> r.action == SessionAction::OpenJumpPrompt && f
                    == o)
                &&& (ev.kind is JumpTimeout ==> r.action == SessionAction::Ignore && f == o)
                &&& (is_termination_event(ev.kind) ==> r.action == SessionAction::FinalizeRender
                    && f == o)
                &&& (ev.kind matches EventKind::JumpSubmit(text) ==> {
                    if old(self).phase() == SessionPhase::Idle {
                        r.action == SessionAction::Ignore && f == o
                    } else if !parseable(text@) {
                        r.action == SessionAction::ReportParseError && f == o
                    } else if 1 <= dec_value(text@) <= o.total() {
                        nav_attempt(o, f, (dec_value(text@) - 1) as usize, r.action)
                    } else {
                        r.action == (SessionAction::ReportOutOfRange {
                            min: 0,
                            max: (o.total() - 1) as usize,
                        }) && f == o
                    }
                })
            },
    {
        if ev.session_id != self.config.session_id {
            return SessionOutput { action: SessionAction::Ignore, rearm_idle: false };
        }
        if self.phase == SessionPhase::Finalizing {
            return SessionOutput { action: SessionAction::Ignore, rearm_idle: false };
        }
        let was_awaiting = self.phase == SessionPhase::AwaitingJumpInput;
        match ev.kind {
            EventKind::First => {
                self.phase = SessionPhase::Idle;
                let res = self.paginator.first_page();
                nav_outcome(res)
            },
            EventKind::Previous => {
                self.phase = SessionPhase::Idle;
                let res = self.paginator.previous_page();
                nav_outcome(res)
            },
            EventKind::Next => {
                self.phase = SessionPhase::Idle;
                let res = self.paginator.next_page();
                nav_outcome(res)
            },
            EventKind::Last => {
                self.phase = SessionPhase::Idle;
                let res = self.paginator.last_page();
                nav_outcome(res)
            },
            EventKind::JumpRequest => {
                self.phase = SessionPhase::AwaitingJumpInput;
                SessionOutput { action: SessionAction::OpenJumpPrompt, rearm_idle: false }
            },
            EventKind::JumpSubmit(text) => {
                self.phase = SessionPhase::Idle;
                if !was_awaiting {
                    return SessionOutput { action: SessionAction::Ignore, rearm_idle: false };
                }
                match parse_usize(text.as_str()) {
                    Some(n) => {
                        let total = self.paginator.len();
                        if 1 <= n && n <= total {
                            let res = self.paginator.jump_to(n - 1);
                            nav_outcome(res)
                        } else {
                            SessionOutput {
                                action: SessionAction::ReportOutOfRange {
                                    min: 0,
                                    max: total - 1,
                                },
                                rearm_idle: true,
                            }
                        }
                    },
                    None => SessionOutput {
                        action: SessionAction::ReportParseError,
                        rearm_idle: true,
                    },
                }
            },
            EventKind::JumpTimeout => {
                self.phase = SessionPhase::Idle;
                SessionOutput { action: SessionAction::Ignore, rearm_idle: false }
            },
            EventKind::IdleTimeout => {
                self.phase = SessionPhase::Finalizing;
                SessionOutput { action: SessionAction::FinalizeRender, rearm_idle: false }
            },
            EventKind::Close => {
                self.phase = SessionPhase::Finalizing;
                SessionOutput { action: SessionAction::FinalizeRender, rearm_idle: false }
            },
        }
    }
}

/// How often a run of events finalizes a session that starts at phase `p`:
/// the number of steps along `ks` at which the phase first becomes
/// `Finalizing`.
pub open spec fn count_finalizations(p: SessionPhase, ks: Seq<EventKind>) -> nat
    decreases ks.len(),
{
    if ks.len() == 0 {
        0
    } else {
        (if finalizes(p, ks[0]) {
            1nat
        } else {
            0nat
        }) + count_finalizations(phase_step(p, ks[0]), ks.drop_first())
    }
}

/// A finalized session never finalizes again, whatever else arrives.
proof fn lemma_no_finalization_after_finalizing(ks: Seq<EventKind>)
    ensures
        count_finalizations(SessionPhase::Finalizing, ks) == 0,
    decreases ks.len(),
{
    if ks.len() > 0 {
        lemma_no_finalization_after_finalizing(ks.drop_first());
    }
}

/// The idle deadline (or the close signal) finalizes a session exactly
/// once: along any run of events a live session reaches `Finalizing` at
/// most once, and exactly once as soon as the run carries a termination
/// event — however many duplicate timer signals follow.
pub proof fn lemma_finalize_exactly_once(p: SessionPhase, ks: Seq<EventKind>)
    requires
        p != SessionPhase::Finalizing,
    ensures
        count_finalizations(p, ks) <= 1,
        (exists|i: int| 0 <= i < ks.len() && is_termination_event(#[trigger] ks[i]))
            ==> count_finalizations(p, ks) == 1,
    decreases ks.len(),
{
    if ks.len() > 0 {
        let p2 = phase_step(p, ks[0]);
        if finalizes(p, ks[0]) {
            lemma_no_finalization_after_finalizing(ks.drop_first());
        } else {
            lemma_finalize_exactly_once(p2, ks.drop_first());
            if exists|i: int| 0 <= i < ks.len() && is_termination_event(#[trigger] ks[i]) {
                let i = choose|i: int| 0 <= i < ks.len() && is_termination_event(#[trigger] ks[i]);
                assert(i != 0);
                assert(is_termination_event(ks.drop_first()[i - 1]));
            }
        }
    }
}

} // verus!
