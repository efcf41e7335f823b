use gst_pipeline::bus::{Bus, Message};
use gst_pipeline::clock::Clock;
use gst_pipeline::element::State;

#[test]
fn fifo_order_is_post_order_across_producers() {
    // Two producer identities interleave their posts; consumption follows
    // post order, not producer.
    let mut b = Bus::new();
    b.post(Message::Eos { source: String::from("a") });
    b.post(Message::Eos { source: String::from("b") });
    b.post(Message::StateChanged { source: String::from("a"), new_state: State::Paused });
    b.post(Message::Eos { source: String::from("b") });
    assert_eq!(b.len(), 4);
    assert!(matches!(b.try_pop(), Some(Message::Eos { source }) if source == "a"));
    assert!(matches!(b.try_pop(), Some(Message::Eos { source }) if source == "b"));
    assert!(matches!(
        b.try_pop(),
        Some(Message::StateChanged { source, new_state: State::Paused }) if source == "a"
    ));
    assert!(matches!(b.try_pop(), Some(Message::Eos { source }) if source == "b"));
    assert!(b.try_pop().is_none());
}

#[test]
fn empty_bus_pops_nothing() {
    let mut b = Bus::new();
    assert!(b.is_empty());
    assert!(b.try_pop().is_none());
}

#[test]
fn flush_discards_everything() {
    let mut b = Bus::new();
    b.post(Message::Eos { source: String::from("a") });
    b.post(Message::ClockLost { source: String::from("b"), clock: Clock { id: 3 } });
    b.flush();
    assert!(b.is_empty());
    assert!(b.try_pop().is_none());
}
