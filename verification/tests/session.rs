use gaia::session::{
    control_flags, counter_label, EventKind, LazyEmbedPaginator, SessionAction, SessionConfig,
    SessionEvent, SessionPhase,
};
use gaia::source::PageSource;
use gaia::NavError;

/// Generates `"Page {i}"` for every index.
struct NumberedSource;

impl PageSource<String> for NumberedSource {
    fn fetch(&mut self, index: usize) -> Option<String> {
        Some(format!("Page {index}"))
    }
}

/// Never produces any content.
struct EmptySource;

impl PageSource<String> for EmptySource {
    fn fetch(&mut self, _index: usize) -> Option<String> {
        None
    }
}

fn config() -> SessionConfig {
    SessionConfig {
        session_id: 42,
        idle_timeout_ms: 180_000,
        jump_timeout_ms: 10_000,
        cache_capacity: 10,
    }
}

fn session(length: usize) -> LazyEmbedPaginator<String, NumberedSource> {
    let mut s = LazyEmbedPaginator::new(NumberedSource, length, config());
    assert!(s.start().is_ok());
    s
}

fn event(kind: EventKind) -> SessionEvent {
    SessionEvent { session_id: 42, kind }
}

#[test]
fn start_aborts_when_page_zero_is_not_producible() {
    let mut s = LazyEmbedPaginator::new(EmptySource, 5, config());
    assert_eq!(s.start(), Err(NavError::NotFound));
    assert!(s.current_page().is_none());
}

#[test]
fn navigation_pushes_updates_and_rearms() {
    let mut s = session(25);
    assert_eq!(s.current_page().unwrap().as_str(), "Page 0");

    let out = s.handle_event(event(EventKind::Next));
    assert_eq!(out.action, SessionAction::PushUpdate);
    assert!(out.rearm_idle);
    assert_eq!(s.current_idx(), 1);
    assert_eq!(s.current_page().unwrap().as_str(), "Page 1");

    let out = s.handle_event(event(EventKind::Last));
    assert_eq!(out.action, SessionAction::PushUpdate);
    assert_eq!(s.current_idx(), 24);

    let out = s.handle_event(event(EventKind::First));
    assert_eq!(out.action, SessionAction::PushUpdate);
    assert_eq!(s.current_idx(), 0);
}

#[test]
fn boundary_is_re_rendered_not_refused() {
    let mut s = session(3);
    let out = s.handle_event(event(EventKind::Previous));
    assert_eq!(out.action, SessionAction::PushUpdate);
    assert!(out.rearm_idle);
    assert_eq!(s.current_idx(), 0);
}

#[test]
fn foreign_session_events_are_ignored() {
    let mut s = session(3);
    let out = s.handle_event(SessionEvent { session_id: 7, kind: EventKind::Close });
    assert_eq!(out.action, SessionAction::Ignore);
    assert!(!out.rearm_idle);
    assert_eq!(s.current_phase(), SessionPhase::Idle);
}

#[test]
fn idle_timeout_finalizes_exactly_once() {
    let mut s = session(3);

    let out = s.handle_event(event(EventKind::IdleTimeout));
    assert_eq!(out.action, SessionAction::FinalizeRender);
    assert!(!out.rearm_idle);
    assert_eq!(s.current_phase(), SessionPhase::Finalizing);

    // Duplicate and rapid timer signals change nothing further.
    let out = s.handle_event(event(EventKind::IdleTimeout));
    assert_eq!(out.action, SessionAction::Ignore);
    let out = s.handle_event(event(EventKind::Close));
    assert_eq!(out.action, SessionAction::Ignore);
    let out = s.handle_event(event(EventKind::Next));
    assert_eq!(out.action, SessionAction::Ignore);
    assert_eq!(s.current_phase(), SessionPhase::Finalizing);
}

#[test]
fn close_finalizes_from_the_jump_wait_too() {
    let mut s = session(3);
    let out = s.handle_event(event(EventKind::JumpRequest));
    assert_eq!(out.action, SessionAction::OpenJumpPrompt);
    assert!(!out.rearm_idle);
    assert_eq!(s.current_phase(), SessionPhase::AwaitingJumpInput);

    let out = s.handle_event(event(EventKind::Close));
    assert_eq!(out.action, SessionAction::FinalizeRender);
    assert_eq!(s.current_phase(), SessionPhase::Finalizing);
}

#[test]
fn jump_submission_is_one_based() {
    let mut s = session(25);
    s.handle_event(event(EventKind::JumpRequest));
    let out = s.handle_event(event(EventKind::JumpSubmit("25".to_string())));
    assert_eq!(out.action, SessionAction::PushUpdate);
    assert!(out.rearm_idle);
    assert_eq!(s.current_idx(), 24);
    assert_eq!(s.current_page().unwrap().as_str(), "Page 24");
    assert_eq!(s.current_phase(), SessionPhase::Idle);
}

#[test]
fn unparsable_jump_submission_is_reported_only() {
    let mut s = session(25);
    s.handle_event(event(EventKind::JumpRequest));
    let out = s.handle_event(event(EventKind::JumpSubmit("two".to_string())));
    assert_eq!(out.action, SessionAction::ReportParseError);
    assert!(out.rearm_idle);
    assert_eq!(s.current_idx(), 0);
    assert_eq!(s.current_phase(), SessionPhase::Idle);
}

#[test]
fn out_of_range_jump_submission_reports_the_bounds() {
    let mut s = session(25);
    s.handle_event(event(EventKind::JumpRequest));
    let out = s.handle_event(event(EventKind::JumpSubmit("26".to_string())));
    assert_eq!(out.action, SessionAction::ReportOutOfRange { min: 0, max: 24 });
    assert_eq!(s.current_idx(), 0);

    s.handle_event(event(EventKind::JumpRequest));
    let out = s.handle_event(event(EventKind::JumpSubmit("0".to_string())));
    assert_eq!(out.action, SessionAction::ReportOutOfRange { min: 0, max: 24 });
    assert_eq!(s.current_idx(), 0);
}

#[test]
fn jump_timeout_returns_to_idle_without_rearming() {
    let mut s = session(3);
    s.handle_event(event(EventKind::JumpRequest));
    let out = s.handle_event(event(EventKind::JumpTimeout));
    assert_eq!(out.action, SessionAction::Ignore);
    assert!(!out.rearm_idle);
    assert_eq!(s.current_phase(), SessionPhase::Idle);
}

#[test]
fn stray_jump_submission_in_idle_is_ignored() {
    let mut s = session(3);
    let out = s.handle_event(event(EventKind::JumpSubmit("2".to_string())));
    assert_eq!(out.action, SessionAction::Ignore);
    assert_eq!(s.current_idx(), 0);
}

#[test]
fn controls_follow_the_position() {
    let f = control_flags(0, 25, false);
    assert!(!f.first_enabled && !f.previous_enabled);
    assert!(f.next_enabled && f.last_enabled);
    assert!(f.jump_enabled);

    let f = control_flags(24, 25, false);
    assert!(f.first_enabled && f.previous_enabled);
    assert!(!f.next_enabled && !f.last_enabled);

    let f = control_flags(3, 25, false);
    assert!(f.first_enabled && f.previous_enabled && f.next_enabled && f.last_enabled);

    // A single page allows no move at all.
    let f = control_flags(0, 1, false);
    assert!(!f.first_enabled && !f.previous_enabled && !f.next_enabled && !f.last_enabled);
    assert!(!f.jump_enabled);

    // Finalizing disables everything, unconditionally.
    let f = control_flags(3, 25, true);
    assert!(!f.first_enabled && !f.previous_enabled && !f.next_enabled && !f.last_enabled);
    assert!(!f.jump_enabled);
}

#[test]
fn finalized_session_renders_disabled_controls() {
    let mut s = session(25);
    s.handle_event(event(EventKind::Next));
    s.handle_event(event(EventKind::IdleTimeout));
    let f = s.controls();
    assert!(!f.first_enabled && !f.previous_enabled && !f.next_enabled && !f.last_enabled);
    assert!(!f.jump_enabled);
    // The current page is still renderable for the final update.
    assert_eq!(s.current_page().unwrap().as_str(), "Page 1");
}

#[test]
fn counter_label_is_one_based() {
    assert_eq!(counter_label(0, 25).as_str(), "1 / 25");
    assert_eq!(counter_label(24, 25).as_str(), "25 / 25");
    assert_eq!(counter_label(2, 10).as_str(), "3 / 10");
}

#[test]
fn not_found_mid_session_is_reported_and_the_loop_survives() {
    let mut s = LazyEmbedPaginator::new(HoleySource, 3, config());
    assert!(s.start().is_ok());
    let out = s.handle_event(event(EventKind::Next));
    assert_eq!(out.action, SessionAction::ReportNotFound);
    assert!(out.rearm_idle);
    assert_eq!(s.current_idx(), 0);
    assert_eq!(s.current_phase(), SessionPhase::Idle);
}

/// Produces nothing for page 1.
struct HoleySource;

impl PageSource<String> for HoleySource {
    fn fetch(&mut self, index: usize) -> Option<String> {
        if index == 1 {
            None
        } else {
            Some(format!("Page {index}"))
        }
    }
}
