use sink::statefulsink::IntoStatefulSink;
use sink::statefulsink::StatefulSink;
use sink::Sink;

#[test]
fn should_handle_single_item_to_statefulsink() {
    let mut s = StatefulSink::new(|_state: &(), _item: ()| ((), ()));
    s.handle(());
}

#[test]
fn should_handle_multiple_items_to_statefulsink() {
    let mut s = StatefulSink::new(|_state: &(), _item: ()| ((), ()));
    s.handle(());
    s.handle(());
}

#[test]
fn should_update_state_on_handle_given_mutable_type() {
    let mut s = StatefulSink::with_state(10u32, |s: &u32, item: u32| (s + item, s + item));
    assert_eq!(20, s.handle(10));
    assert_eq!(40, s.handle(20));
}

#[test]
fn should_update_state_on_handle_given_defaulted_mutable_type() {
    let mut s = StatefulSink::new(|s: &u32, item: u32| (s + item, s + item));
    assert_eq!(10, s.handle(10));
    assert_eq!(30, s.handle(20));
}

#[test]
fn should_convert_into_and_update_state_on_handle_given_defaulted_mutable_type() {
    let mut s = 10u32.into_sink(|state: &u32, item: u32| (state + item, state + item));
    assert_eq!(20, s.handle(10));
    assert_eq!(40, s.handle(20));
}

#[test]
fn send_and_handle_agree() {
    let mut by_send = StatefulSink::with_state(10u32, |s: &u32, item: u32| (s + item, s + item));
    let mut by_handle = StatefulSink::with_state(10u32, |s: &u32, item: u32| (s + item, s + item));
    assert_eq!(by_send.send(10), by_handle.handle(10));
    assert_eq!(by_send.send(20), by_handle.handle(20));
    assert_eq!(by_send.state, by_handle.state);
}

#[test]
fn pure_handler_returns_same_result_for_same_input() {
    let mut s = StatefulSink::with_state(5u32, |state: &u32, item: u32| (*state, state + item));
    assert_eq!(15, s.send(10));
    assert_eq!(15, s.send(10));
    assert_eq!(15, s.send(10));
    assert_eq!(5, s.state);
}

#[test]
fn into_sink_behaves_as_with_state() {
    let mut converted = 7u32.into_sink(|s: &u32, item: u32| (s + item, s + item));
    let mut direct = StatefulSink::with_state(7u32, |s: &u32, item: u32| (s + item, s + item));
    assert_eq!(converted.send(3), direct.send(3));
    assert_eq!(converted.send(4), direct.send(4));
    assert_eq!(converted.state, direct.state);
}
