use sink::vecsink::Error;
use sink::vecsink::VecSink;
use sink::Sink;

#[test]
fn populate_vecsink_with_handled_message() {
    let mut sink = VecSink::new();
    sink.send(10).unwrap();
    sink.send(20).unwrap();
    assert_eq!(vec![10, 20], sink.data());
}

#[test]
fn return_data_index_as_result_handle() {
    let mut sink = VecSink::new();
    assert_eq!(0, sink.send(10).unwrap());
    assert_eq!(1, sink.send(20).unwrap());
}

#[test]
fn fresh_sink_starts_empty() {
    let sink = VecSink::<u32>::new();
    assert_eq!(Vec::<u32>::new(), sink.data());
}

#[test]
fn indices_count_up_from_zero() {
    let mut sink = VecSink::new();
    for k in 0..100u32 {
        assert_eq!(k as usize, sink.send(k).unwrap());
    }
    let logged: Vec<u32> = (0..100u32).collect();
    assert_eq!(logged, sink.data());
}

#[test]
fn snapshot_twice_yields_equal_sequences() {
    let mut sink = VecSink::new();
    sink.send(1).unwrap();
    sink.send(2).unwrap();
    sink.send(3).unwrap();
    assert_eq!(sink.data(), sink.data());
}

#[test]
fn snapshot_does_not_drain_the_log() {
    let mut sink = VecSink::new();
    sink.send(5).unwrap();
    assert_eq!(vec![5], sink.data());
    sink.send(6).unwrap();
    assert_eq!(vec![5, 6], sink.data());
}

#[test]
fn overflow_variant_is_declared_but_never_raised() {
    let err = Error::Overflow;
    assert!(matches!(err, Error::Overflow));
    let mut sink = VecSink::new();
    for k in 0..1000u32 {
        assert!(sink.send(k).is_ok());
    }
}
