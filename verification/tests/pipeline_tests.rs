use gst_pipeline::bin::Bin;
use gst_pipeline::bus::Message;
use gst_pipeline::clock::{Clock, SYSTEM_CLOCK_ID};
use gst_pipeline::element::{Element, State, TransitionResult};
use gst_pipeline::error::Error;
use gst_pipeline::pipeline::Pipeline;

fn fresh(name: &str) -> Pipeline {
    Pipeline::new(name).expect("a pipeline is always handed back")
}

fn plain(name: &str) -> Element {
    Element::new(String::from(name), false, false, false, None)
}

#[test]
fn fresh_pipeline_has_zero_accumulated_running_time() {
    let p = fresh("p");
    assert_eq!(p.accumulated_running_time, 0);
    assert_eq!(p.bin.state, State::Null);
    assert_eq!(p.delay, 0);
    assert!(p.auto_flush_bus);
}

#[test]
fn accumulated_stays_zero_before_first_playing() {
    let mut p = fresh("p");
    p.set_state(State::Paused, 10);
    assert_eq!(p.accumulated_running_time, 0);
    p.set_state(State::Ready, 20);
    assert_eq!(p.accumulated_running_time, 0);
}

#[test]
fn pause_records_and_resume_excludes_paused_time() {
    let mut p = fresh("p");
    p.set_state(State::Playing, 1000);
    assert_eq!(p.base_time, 1000);
    p.set_state(State::Paused, 3000);
    // 2000 ns were spent PLAYING.
    assert_eq!(p.accumulated_running_time, 2000);
    assert_eq!(p.running_time(4000), 2000);
    // A long pause passes; resuming continues from the recorded value.
    p.set_state(State::Playing, 9000);
    assert_eq!(p.base_time, 7000);
    assert!(p.running_time(9000) >= 2000);
    assert_eq!(p.running_time(9000), 2000);
    // 500 ns later the running time has advanced by exactly 500.
    assert_eq!(p.running_time(9500), 2500);
}

#[test]
fn transition_to_ready_resets_running_time() {
    let mut p = fresh("p");
    p.set_state(State::Playing, 100);
    p.set_state(State::Paused, 700);
    assert_eq!(p.accumulated_running_time, 600);
    p.set_state(State::Ready, 800);
    assert_eq!(p.accumulated_running_time, 0);
}

#[test]
fn flushing_seek_resets_running_time() {
    let mut p = fresh("p");
    p.set_state(State::Playing, 100);
    p.set_state(State::Paused, 700);
    assert_eq!(p.accumulated_running_time, 600);
    p.flushing_seek(900);
    assert_eq!(p.accumulated_running_time, 0);
}

#[test]
fn delay_opens_a_grace_period_before_running_time_advances() {
    // A 100 ms delay, in nanoseconds.
    let delay: u64 = 100_000_000;
    let mut p = fresh("p");
    p.set_state(State::Paused, 1_000);
    p.set_delay(delay);
    assert_eq!(p.delay(), delay);
    let t2: u64 = 200_000_000;
    p.set_state(State::Playing, t2);
    // The delay is added to the base time.
    assert_eq!(p.base_time, t2 + delay);
    // The running time is never negative: it sits at zero through the grace
    // period and first advances past zero only after the delay has elapsed.
    assert_eq!(p.running_time(t2), 0);
    assert_eq!(p.running_time(t2 + delay / 2), 0);
    assert_eq!(p.running_time(t2 + delay), 0);
    assert_eq!(p.running_time(t2 + delay + 5), 5);
}

#[test]
fn live_source_clock_beats_sink_clock() {
    let mut p = fresh("p");
    p.add(Element::new(String::from("cam"), true, false, false, Some(Clock { id: 7 })))
        .expect("name is free");
    p.add(Element::new(String::from("out"), false, false, true, Some(Clock { id: 9 })))
        .expect("name is free");
    p.set_state(State::Playing, 50);
    assert_eq!(p.selected_clock, Clock { id: 7 });
}

#[test]
fn sink_clock_is_used_without_live_sources() {
    let mut p = fresh("p");
    p.add(plain("src")).expect("name is free");
    p.add(Element::new(String::from("out"), false, false, true, Some(Clock { id: 9 })))
        .expect("name is free");
    p.set_state(State::Playing, 50);
    assert_eq!(p.selected_clock, Clock { id: 9 });
}

#[test]
fn system_clock_is_the_fallback() {
    let mut p = fresh("p");
    p.add(plain("src")).expect("name is free");
    p.set_state(State::Playing, 50);
    assert_eq!(p.selected_clock.id, SYSTEM_CLOCK_ID);
}

#[test]
fn pinned_clock_survives_pause_play_cycles() {
    let mut p = fresh("p");
    p.add(Element::new(String::from("out"), false, false, true, Some(Clock { id: 9 })))
        .expect("name is free");
    p.use_clock(Clock { id: 42 });
    p.set_state(State::Playing, 10);
    assert_eq!(p.selected_clock, Clock { id: 42 });
    p.set_state(State::Paused, 20);
    p.set_state(State::Playing, 30);
    assert_eq!(p.selected_clock, Clock { id: 42 });
    // Restoring automatic selection re-runs the algorithm on the next edge.
    p.auto_clock();
    p.set_state(State::Paused, 40);
    p.set_state(State::Playing, 50);
    assert_eq!(p.selected_clock, Clock { id: 9 });
}

#[test]
fn auto_flush_drains_the_bus_on_null() {
    let mut p = fresh("p");
    p.post_message(Message::Eos { source: String::from("src") });
    p.set_state(State::Playing, 10);
    p.set_state(State::Null, 20);
    assert!(p.bus().is_empty());
}

#[test]
fn disabled_auto_flush_preserves_messages_across_null() {
    let mut p = fresh("p");
    p.set_auto_flush_bus(false);
    p.post_message(Message::Eos { source: String::from("src") });
    p.set_state(State::Playing, 10);
    p.set_state(State::Null, 20);
    assert_eq!(p.bus().len(), 1);
    assert!(matches!(p.pop_message(), Some(Message::Eos { source }) if source == "src"));
}

#[test]
fn description_builds_a_pipeline_in_null() {
    let p = Pipeline::new_from_str("src ! sink").expect("the description is well-formed");
    assert_eq!(p.bin.state, State::Null);
    assert_eq!(p.bin.children.len(), 2);
    assert_eq!(p.bin.children[0].name, "src");
    assert_eq!(p.bin.children[1].name, "sink");
}

#[test]
fn spaces_around_names_are_trimmed() {
    let p = Pipeline::new_from_str("  src !   filter  !sink").expect("well-formed");
    assert_eq!(p.bin.children[0].name, "src");
    assert_eq!(p.bin.children[1].name, "filter");
    assert_eq!(p.bin.children[2].name, "sink");
}

#[test]
fn empty_segment_is_a_parse_error_with_nonzero_code() {
    match Pipeline::new_from_str("src ! ! sink") {
        Ok(_) => panic!("a malformed description must not build a pipeline"),
        Err(e) => {
            assert!(matches!(e, Error::Parse { .. }));
            assert_ne!(e.code(), 0);
        },
    }
}

#[test]
fn repeated_name_is_a_parse_error_with_nonzero_code() {
    match Pipeline::new_from_str("src ! src") {
        Ok(_) => panic!("a repeated identity must not build a pipeline"),
        Err(Error::Parse { code, .. }) => assert_ne!(code, 0),
        Err(_) => panic!("a repeated identity reports a parse error"),
    }
}

#[test]
fn adding_a_duplicate_identity_is_rejected() {
    let mut p = fresh("p");
    p.add(plain("src")).expect("name is free");
    let rejected = p.add(plain("src"));
    assert!(rejected.is_err());
    assert_eq!(p.bin.children.len(), 1);
}

#[test]
fn removing_an_unknown_child_is_an_ownership_error() {
    let mut p = fresh("p");
    p.add(plain("src")).expect("name is free");
    match p.remove("sink") {
        Ok(_) => panic!("removing an unknown child must fail"),
        Err(e) => assert!(matches!(e, Error::Ownership { .. })),
    }
    // Removing an owned child hands it back.
    let got = p.remove("src").expect("src is owned here");
    assert_eq!(got.name, "src");
    assert_eq!(p.bin.children.len(), 0);
}

#[test]
fn added_element_is_brought_to_the_current_state() {
    let mut p = fresh("p");
    p.set_state(State::Paused, 10);
    let r = p.add(plain("late")).expect("name is free");
    assert_eq!(r, TransitionResult::Success);
    assert_eq!(p.bin.children[0].state, State::Paused);
}

#[test]
fn refusing_child_fails_the_pipeline_and_posts_an_error() {
    let mut p = fresh("p");
    let mut bad = plain("bad");
    bad.refuse_transitions_into(State::Playing);
    p.add(plain("ok")).expect("name is free");
    p.add(bad).expect("name is free");
    let r = p.set_state(State::Playing, 10);
    assert_eq!(r, TransitionResult::Failure);
    // The pipeline stays in its last successfully reached state.
    assert_eq!(p.bin.state, State::Null);
    assert!(matches!(p.pop_message(), Some(Message::ErrorReport { source, .. }) if source == "bad"));
}

#[test]
fn preempted_request_records_exactly_one_completion() {
    let mut p = fresh("p");
    p.add(Element::new(String::from("sink"), false, true, true, None)).expect("name is free");
    // Request PAUSED; the sink pre-rolls asynchronously.
    let r1 = p.set_state(State::Paused, 10);
    assert_eq!(r1, TransitionResult::Async);
    assert!(!p.settled());
    // Request PLAYING before the first transition completes: it preempts.
    let r2 = p.set_state(State::Playing, 20);
    assert_eq!(r2, TransitionResult::Async);
    // The stale completion for PAUSED arrives and is discarded.
    let mut recorded = 0;
    if p.complete_child("sink", State::Paused) {
        recorded += 1;
    }
    // The completion for the preempting target is recorded.
    if p.complete_child("sink", State::Playing) {
        recorded += 1;
    }
    assert_eq!(recorded, 1);
    assert!(p.settled());
    assert_eq!(p.bin.state, State::Playing);
    assert_eq!(p.bin.children[0].state, State::Playing);
    // Exactly one state-changed message was posted.
    assert!(matches!(
        p.pop_message(),
        Some(Message::StateChanged { source, new_state: State::Playing }) if source == "sink"
    ));
    assert!(p.pop_message().is_none());
}

#[test]
fn async_pipeline_settles_after_completion() {
    let mut p = fresh("p");
    p.add(plain("src")).expect("name is free");
    p.add(Element::new(String::from("sink"), false, true, true, None)).expect("name is free");
    let r = p.set_state(State::Paused, 10);
    assert_eq!(r, TransitionResult::Async);
    assert!(!p.settled());
    assert!(p.complete_child("sink", State::Paused));
    assert!(p.settled());
    assert_eq!(p.bin.children[1].state, State::Paused);
}

#[test]
fn removing_a_pending_child_discards_its_completion() {
    let mut p = fresh("p");
    p.add(plain("src")).expect("name is free");
    p.add(Element::new(String::from("sink"), false, true, true, None)).expect("name is free");
    assert_eq!(p.set_state(State::Paused, 10), TransitionResult::Async);
    assert!(!p.settled());
    let gone = p.remove("sink").expect("sink is owned here");
    assert_eq!(gone.pending, Some(State::Paused));
    // The removed child's pending completion no longer affects aggregation.
    assert!(p.settled());
    assert!(!p.complete_child("sink", State::Paused));
}

#[test]
fn pipeline_converts_into_its_container() {
    let mut p = fresh("p");
    p.add(plain("src")).expect("name is free");
    let b = Bin::from(p);
    assert_eq!(b.children.len(), 1);
    assert_eq!(b.children[0].name, "src");
}

#[test]
fn live_child_surfaces_no_preroll_to_the_pipeline() {
    let mut p = fresh("p");
    p.add(Element::new(String::from("cam"), true, false, false, None)).expect("name is free");
    p.add(plain("out")).expect("name is free");
    let r = p.set_state(State::Paused, 10);
    assert_eq!(r, TransitionResult::NoPreroll);
}
