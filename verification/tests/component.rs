use rustfbp::component::{count_channel, count_outcome, drain_step, port_result, CountReceiver, CountSender, DrainStep, OptionReceiver, OutputPortError, OutputSender};
use rustfbp::scheduler::CompMsg;
use std::sync::atomic::{AtomicUsize, Ordering};
use std::sync::mpsc::{channel, sync_channel, SendError, TryRecvError};
use std::sync::Arc;

#[test]
fn test_count_channel() {
    assert!(true);
    let (s, r) = count_channel(16);
    assert!(s.count.load(Ordering::Relaxed) == 0);
    assert!(r.count.load(Ordering::Relaxed) == 0);
    let _ = s.send(11).ok().expect("Not ok");
    assert!(s.count.load(Ordering::Relaxed) == 1);
    assert!(r.count.load(Ordering::Relaxed) == 1);
    let _ = r.recv().ok().expect("Not ok");
    assert!(s.count.load(Ordering::Relaxed) == 0);
    assert!(r.count.load(Ordering::Relaxed) == 0);
}

#[test]
fn count_channel_counts_every_packet_in_flight() {
    let (s, r) = count_channel::<u32>(4);
    s.send(1).unwrap();
    s.send(2).unwrap();
    s.send(3).unwrap();
    assert_eq!(r.count.load(Ordering::SeqCst), 3);
    assert_eq!(r.try_recv().unwrap(), 1);
    assert_eq!(s.count.load(Ordering::SeqCst), 2);
    assert_eq!(r.recv().unwrap(), 2);
    assert_eq!(r.recv().unwrap(), 3);
    assert_eq!(s.count.load(Ordering::SeqCst), 0);
}

#[test]
fn count_receiver_try_recv_on_empty_channel_leaves_count() {
    let (_s, r) = count_channel::<u32>(2);
    assert!(matches!(r.try_recv(), Err(TryRecvError::Empty)));
    assert_eq!(r.count.load(Ordering::SeqCst), 0);
}

#[test]
fn count_receiver_recv_after_senders_gone_is_error() {
    let (s, r) = count_channel::<u32>(2);
    s.send(7).unwrap();
    drop(s);
    assert_eq!(r.recv().unwrap(), 7);
    assert!(r.recv().is_err());
    assert!(matches!(r.try_recv(), Err(TryRecvError::Disconnected)));
    assert_eq!(r.count.load(Ordering::SeqCst), 0);
}

#[test]
fn count_sender_refused_packet_leaves_count() {
    let (s, r) = count_channel::<u32>(2);
    let counter = r.count.clone();
    drop(r);
    match s.send(5) {
        Err(SendError(v)) => assert_eq!(v, 5),
        Ok(()) => panic!("a channel without receiver accepted a packet"),
    }
    assert_eq!(counter.load(Ordering::SeqCst), 0);
}

#[test]
fn count_sender_new_shares_the_given_counter() {
    let (tx, rx) = sync_channel::<u8>(1);
    let atom = Arc::new(AtomicUsize::new(0));
    let s = CountSender::new(tx, atom.clone());
    let r = CountReceiver::new(rx, atom.clone());
    s.send(9).unwrap();
    assert_eq!(atom.load(Ordering::SeqCst), 1);
    assert_eq!(r.recv().unwrap(), 9);
    assert_eq!(atom.load(Ordering::SeqCst), 0);
}

#[test]
fn count_sender_clone_feeds_the_same_channel_and_counter() {
    let (s, r) = count_channel::<u32>(4);
    let s2 = s.clone();
    s2.send(40).unwrap();
    s.send(41).unwrap();
    assert!(Arc::ptr_eq(&s.count, &s2.count));
    assert_eq!(r.count.load(Ordering::SeqCst), 2);
    assert_eq!(r.recv().unwrap(), 40);
    assert_eq!(r.recv().unwrap(), 41);
}

#[test]
fn count_sender_with_scheduler_starts_the_reader() {
    let (s, r) = count_channel::<u32>(4);
    let (sched_tx, sched_rx) = channel::<CompMsg>();
    let mut s = s;
    s.set_sched("adder".to_string(), sched_tx);
    s.send(1).unwrap();
    match sched_rx.try_recv() {
        Ok(CompMsg::Start(name)) => assert_eq!(name, "adder"),
        Err(_) => panic!("the scheduler was not told"),
    }
    let s2 = s.clone();
    s2.send(2).unwrap();
    match sched_rx.try_recv() {
        Ok(CompMsg::Start(name)) => assert_eq!(name, "adder"),
        Err(_) => panic!("a clone forgot the scheduler"),
    }
    assert_eq!(r.count.load(Ordering::SeqCst), 2);
}

#[test]
fn count_sender_without_scheduler_tells_nobody() {
    let (s, _r) = count_channel::<u32>(4);
    let (sched_tx, sched_rx) = channel::<CompMsg>();
    drop(sched_tx);
    s.send(1).unwrap();
    assert!(sched_rx.try_recv().is_err());
}

#[test]
fn output_sender_unconnected_answers_not_connected() {
    let os = OutputSender::<i32>::new();
    assert!(matches!(os.send(1), Err(OutputPortError::NotConnected)));
}

#[test]
fn output_sender_connect_then_send() {
    let (s, r) = count_channel::<i32>(16);
    let mut os = OutputSender::<i32>::new();
    os.connect(s);
    assert!(os.send(23).is_ok());
    assert_eq!(r.recv().unwrap(), 23);
}

#[test]
fn output_sender_disconnect_answers_not_connected() {
    let (s, r) = count_channel::<i32>(16);
    let mut os = OutputSender::new();
    os.connect(s);
    os.disconnect();
    assert!(matches!(os.send(3), Err(OutputPortError::NotConnected)));
    assert!(r.try_recv().is_err());
}

#[test]
fn output_sender_remove_hands_back_the_sender() {
    let (s, r) = count_channel::<i32>(16);
    let mut os = OutputSender::new();
    assert!(OutputSender::<i32>::new().remove().is_none());
    os.connect(s);
    let back = os.remove().expect("the port was connected");
    back.send(8).unwrap();
    assert_eq!(r.recv().unwrap(), 8);
}

#[test]
fn output_sender_reconnect_replaces_the_first_connection() {
    let (s1, r1) = count_channel::<i32>(16);
    let (s2, r2) = count_channel::<i32>(16);
    let mut os = OutputSender::new();
    os.connect(s1);
    os.connect(s2);
    assert!(os.send(5).is_ok());
    assert!(r1.try_recv().is_err());
    assert_eq!(r2.recv().unwrap(), 5);
}

#[test]
fn output_sender_cannot_send_when_receiver_is_gone() {
    let (s, r) = count_channel::<i32>(16);
    drop(r);
    let mut os = OutputSender::new();
    os.connect(s);
    match os.send(77) {
        Err(OutputPortError::CannotSend(SendError(v))) => assert_eq!(v, 77),
        _ => panic!("expected CannotSend"),
    }
}

#[test]
fn port_result_maps_each_outcome() {
    assert!(matches!(port_result::<u8>(Ok(())), Ok(())));
    match port_result(Err(SendError(4u8))) {
        Err(OutputPortError::CannotSend(SendError(v))) => assert_eq!(v, 4),
        _ => panic!("expected CannotSend"),
    }
}

#[test]
fn option_receiver_keeps_only_the_latest_packet() {
    let (s, r) = sync_channel(16);
    let mut or = OptionReceiver::new(r);
    s.send(23).unwrap();
    assert_eq!(or.recv().unwrap(), 23);
    assert_eq!(or.recv().unwrap(), 23);
    s.send(42).unwrap();
    s.send(666).unwrap();
    assert_eq!(or.recv().unwrap(), 666);
}

#[test]
fn option_receiver_try_recv_before_any_packet_is_error() {
    let (_s, r) = sync_channel::<u32>(4);
    let mut or = OptionReceiver::new(r);
    assert!(matches!(or.try_recv(), Err(TryRecvError::Empty)));
    assert!(matches!(or.try_recv(), Err(TryRecvError::Empty)));
}

#[test]
fn option_receiver_try_recv_latest_then_remembered() {
    let (s, r) = sync_channel::<String>(4);
    let mut or = OptionReceiver::new(r);
    s.send("a".to_string()).unwrap();
    s.send("b".to_string()).unwrap();
    assert_eq!(or.try_recv().unwrap(), "b");
    assert_eq!(or.try_recv().unwrap(), "b");
    drop(s);
    assert_eq!(or.try_recv().unwrap(), "b");
    assert_eq!(or.recv().unwrap(), "b");
}

#[test]
fn option_receiver_disconnected_before_any_packet_is_error() {
    let (s, r) = sync_channel::<u32>(4);
    drop(s);
    let mut or = OptionReceiver::new(r);
    assert!(matches!(or.try_recv(), Err(TryRecvError::Disconnected)));
}

#[test]
fn option_receiver_recv_with_no_sender_and_nothing_remembered_is_error() {
    let (s, r) = sync_channel::<u32>(4);
    drop(s);
    let mut or = OptionReceiver::new(r);
    assert!(or.recv().is_err());
    assert!(or.try_recv().is_err());
}

#[test]
fn option_receiver_recv_after_senders_gone_answers_remembered() {
    let (s, r) = sync_channel::<u32>(4);
    let mut or = OptionReceiver::new(r);
    s.send(1).unwrap();
    s.send(2).unwrap();
    drop(s);
    assert_eq!(or.recv().unwrap(), 2);
    assert_eq!(or.recv().unwrap(), 2);
    assert_eq!(or.try_recv().unwrap(), 2);
}

#[test]
fn option_receiver_drains_every_waiting_packet() {
    let (s, r) = sync_channel::<i32>(16);
    s.send(42).unwrap();
    s.send(666).unwrap();
    let mut or = OptionReceiver::new(r);
    assert_eq!(or.try_recv().unwrap(), 666);
    s.send(7).unwrap();
    assert_eq!(or.recv().unwrap(), 7);
}

#[test]
fn count_sender_with_scheduler_gone_still_sends_and_counts() {
    let (s, r) = count_channel::<u32>(4);
    let (sched_tx, sched_rx) = channel::<CompMsg>();
    drop(sched_rx);
    let mut s = s;
    s.set_sched("gone".to_string(), sched_tx);
    assert!(s.send(3).is_ok());
    assert_eq!(r.count.load(Ordering::SeqCst), 1);
    assert_eq!(r.recv().unwrap(), 3);
}

#[test]
fn count_sender_notice_names_the_reader_only_when_accepted() {
    let (s, _r) = count_channel::<u32>(4);
    assert!(s.notice(true).is_none());
    assert!(s.notice(false).is_none());
    let (sched_tx, _sched_rx) = channel::<CompMsg>();
    let mut s = s;
    s.set_sched("reader".to_string(), sched_tx);
    match s.notice(true) {
        Some(CompMsg::Start(name)) => assert_eq!(name, "reader"),
        None => panic!("an accepted packet must be noticed"),
    }
    assert!(s.notice(false).is_none());
}

#[test]
fn count_outcome_moves_the_counter_only_on_ok() {
    let (r, moves) = count_outcome::<u8, ()>(Ok(5));
    assert_eq!(r, Ok(5));
    assert!(moves);
    let (r, moves) = count_outcome::<u8, ()>(Err(()));
    assert_eq!(r, Err(()));
    assert!(!moves);
}

#[test]
fn drain_step_decides_each_outcome() {
    assert!(matches!(drain_step(None, Ok(3u8)), DrainStep::Next(3)));
    assert!(matches!(drain_step(Some(1u8), Ok(3u8)), DrainStep::Next(3)));
    assert!(matches!(drain_step(Some(1u8), Err(TryRecvError::Empty)), DrainStep::Done(1)));
    assert!(matches!(drain_step::<u8>(None, Err(TryRecvError::Empty)), DrainStep::Failed(TryRecvError::Empty)));
    assert!(matches!(drain_step::<u8>(None, Err(TryRecvError::Disconnected)), DrainStep::Failed(TryRecvError::Disconnected)));
}

#[test]
fn count_sender_settle_send_decides_counter_and_notice() {
    let (s, _r) = count_channel::<u32>(4);
    let (sched_tx, _sched_rx) = channel::<CompMsg>();
    let mut s = s;
    s.set_sched("reader".to_string(), sched_tx);
    let (res, up, told) = s.settle_send(Ok(()));
    assert!(res.is_ok());
    assert!(up);
    match told {
        Some(CompMsg::Start(name)) => assert_eq!(name, "reader"),
        None => panic!("an accepted packet must be noticed"),
    }
    let (res, up, told) = s.settle_send(Err(SendError(9)));
    match res {
        Err(SendError(v)) => assert_eq!(v, 9),
        Ok(()) => panic!("the outcome must come back unchanged"),
    }
    assert!(!up);
    assert!(told.is_none());
}
