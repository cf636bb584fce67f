use sink::statefulsink::StatefulSink;
use sink::Counter;
use sink::Dispatcher;
use sink::Initializable;
use sink::Sink;
use sink::Source;
use sink::UnitSource;

#[test]
fn unit_source_always_produces_unit() {
    let source = UnitSource::new();
    assert_eq!((), source.next());
    assert_eq!((), source.next());
}

#[test]
fn dispatch_has_the_effect_of_send() {
    let mut dispatched = StatefulSink::with_state(0u32, |s: &u32, item: u32| (s + item, ()));
    let mut sent = StatefulSink::with_state(0u32, |s: &u32, item: u32| (s + item, ()));
    dispatched.dispatch(10);
    dispatched.dispatch(20);
    sent.send(10);
    sent.send(20);
    assert_eq!(30, dispatched.state);
    assert_eq!(dispatched.state, sent.state);
}

#[test]
fn init_applies_state_on_top_of_default() {
    let counter = Counter::init(5);
    assert_eq!(5, counter.value);
}

#[test]
fn default_counter_starts_at_zero() {
    let counter = Counter::default();
    assert_eq!(0, counter.value);
}

#[test]
fn counter_serves_as_stateful_sink_state() {
    let mut s = StatefulSink::new(|c: &Counter, item: u64| {
        (Counter { value: c.value + item }, c.value + item)
    });
    assert_eq!(10, s.send(10));
    assert_eq!(30, s.send(20));
}

#[test]
fn apply_state_twice_keeps_the_second_application() {
    let mut counter = Counter::init(5);
    counter.apply_state(9);
    assert_eq!(9, counter.value);
    let direct = Counter::init(9);
    assert_eq!(direct.value, counter.value);
}
