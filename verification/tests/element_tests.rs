use gst_pipeline::element::{Element, State, TransitionResult};

fn plain(name: &str) -> Element {
    Element::new(String::from(name), false, false, false, None)
}

#[test]
fn fresh_element_starts_in_null() {
    let e = plain("src");
    assert_eq!(e.state, State::Null);
    assert!(e.pending.is_none());
    assert_eq!(e.name, "src");
}

#[test]
fn multi_step_request_reaches_playing() {
    let mut e = plain("src");
    let r = e.set_state(State::Playing);
    assert_eq!(r, TransitionResult::Success);
    assert_eq!(e.state, State::Playing);
}

#[test]
fn live_element_reports_no_preroll() {
    let mut e = Element::new(String::from("cam"), true, false, false, None);
    let r = e.set_state(State::Paused);
    assert_eq!(r, TransitionResult::NoPreroll);
    assert_eq!(e.state, State::Paused);
    let r2 = e.set_state(State::Playing);
    assert_eq!(r2, TransitionResult::Success);
}

#[test]
fn live_element_reports_no_preroll_from_above() {
    let mut e = Element::new(String::from("cam"), true, false, false, None);
    e.set_state(State::Playing);
    let r = e.set_state(State::Paused);
    assert_eq!(r, TransitionResult::NoPreroll);
}

#[test]
fn prerolling_sink_goes_async() {
    let mut e = Element::new(String::from("sink"), false, true, true, None);
    let r = e.set_state(State::Paused);
    assert_eq!(r, TransitionResult::Async);
    assert_eq!(e.state, State::Ready);
    assert_eq!(e.pending, Some(State::Paused));
    assert!(e.complete_async(State::Paused));
    assert_eq!(e.state, State::Paused);
    assert!(e.pending.is_none());
}

#[test]
fn stale_completion_is_discarded() {
    let mut e = Element::new(String::from("sink"), false, true, true, None);
    assert_eq!(e.set_state(State::Paused), TransitionResult::Async);
    assert_eq!(e.set_state(State::Playing), TransitionResult::Async);
    assert!(!e.complete_async(State::Paused));
    assert!(e.complete_async(State::Playing));
    assert_eq!(e.state, State::Playing);
}

#[test]
fn refused_transition_fails_and_keeps_reached_state() {
    let mut e = plain("bad");
    e.refuse_transitions_into(State::Playing);
    let r = e.set_state(State::Playing);
    assert_eq!(r, TransitionResult::Failure);
    assert_eq!(e.state, State::Paused);
}

#[test]
fn downward_transition_succeeds() {
    let mut e = plain("src");
    e.set_state(State::Playing);
    let r = e.set_state(State::Null);
    assert_eq!(r, TransitionResult::Success);
    assert_eq!(e.state, State::Null);
}
