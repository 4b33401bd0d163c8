use iced_sctk::{new, Action, PostAction, Received, SendError, MAX_SIZE};

#[test]
fn capacity_is_one_hundred() {
    assert_eq!(MAX_SIZE, 100);
    let (sink, mut source) = new::<u32>();
    for i in 0..100u32 {
        assert!(sink.try_send(Action::Output(i)).is_ok());
    }
    match sink.try_send(Action::Output(100)) {
        Err(SendError::Full(Action::Output(v))) => assert_eq!(v, 100),
        _ => panic!("the 101st action must be refused"),
    }
    let drained = source.process_events();
    assert_eq!(drained.actions.len(), 100);
    assert_eq!(drained.post, PostAction::Continue);
    assert!(drained.rearm);
    assert!(sink.try_send(Action::Output(100)).is_ok());
}

#[test]
fn drained_in_order_without_rearm() {
    let (sink, mut source) = new::<u32>();
    for i in 0..3u32 {
        assert!(sink.try_send(Action::Output(i)).is_ok());
    }
    let drained = source.process_events();
    assert_eq!(drained.actions.len(), 3);
    for (i, a) in drained.actions.iter().enumerate() {
        assert!(matches!(a, Action::Output(v) if *v == i as u32));
    }
    assert_eq!(drained.post, PostAction::Continue);
    assert!(!drained.rearm);
}

#[test]
fn closing_senders_delivers_one_exit() {
    let (sink, mut source) = new::<u32>();
    let other = sink.clone();
    assert!(other.try_send(Action::Output(7)).is_ok());
    drop(sink);
    drop(other);
    let drained = source.process_events();
    assert_eq!(drained.actions.len(), 2);
    assert!(matches!(drained.actions[0], Action::Output(7)));
    assert!(matches!(drained.actions[1], Action::Exit));
    assert_eq!(drained.post, PostAction::Remove);
    let again = source.process_events();
    assert_eq!(again.actions.len(), 0);
    assert_eq!(again.post, PostAction::Remove);
}

#[test]
fn send_after_receiver_dropped_is_refused() {
    let (sink, source) = new::<u32>();
    drop(source);
    assert!(matches!(sink.try_send(Action::Output(1)), Err(SendError::Disconnected(Action::Output(1)))));
}

#[test]
fn one_step_per_outcome() {
    let (_sink, mut source) = new::<u32>();
    let mut acc = Vec::new();
    assert_eq!(source.take(&mut acc, Received::Item(Action::Output(1))), None);
    assert_eq!(acc.len(), 1);
    assert_eq!(source.take(&mut acc, Received::Empty), Some((PostAction::Continue, false)));
    assert_eq!(acc.len(), 1);
    assert_eq!(source.take(&mut acc, Received::Closed), Some((PostAction::Remove, false)));
    assert!(matches!(acc[1], Action::Exit));
    assert_eq!(source.process_events().post, PostAction::Remove);
}

#[test]
fn step_reaching_the_bound_rearms() {
    let (_sink, mut source) = new::<u32>();
    let mut acc: Vec<Action<u32>> = (0..99).map(Action::Output).collect();
    assert_eq!(source.take(&mut acc, Received::Item(Action::Output(99))), Some((PostAction::Continue, true)));
    assert_eq!(acc.len(), MAX_SIZE);
}
