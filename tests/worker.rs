use monitor_tab::worker::{start, MAX_FLUSH_ATTEMPTS};
use monitor_tab::{step, Action, Event, WorkerState};

#[test]
fn starts_by_accepting() {
    let (s, a) = start();
    assert_eq!(s, WorkerState::WaitingForConnection);
    assert!(matches!(a, Action::Accept));
}

#[test]
fn accept_failures_are_retried() {
    let (s, a) = step(WorkerState::WaitingForConnection, Event::ConnectFailed);
    assert_eq!(s, WorkerState::WaitingForConnection);
    assert!(matches!(a, Action::Accept));
}

#[test]
fn connected_worker_receives_and_sends_frames_as_they_come() {
    let (s, a) = step(WorkerState::WaitingForConnection, Event::Connected);
    assert_eq!(s, WorkerState::Streaming);
    assert!(matches!(a, Action::Receive));
    let (s, a) = step(s, Event::Received(vec![1, 2, 3]));
    assert_eq!(s, WorkerState::Streaming);
    match a {
        Action::Send(f) => assert_eq!(f, vec![1, 2, 3]),
        _ => panic!("expected a send"),
    }
    let (s, a) = step(s, Event::SendOk);
    assert_eq!(s, WorkerState::Streaming);
    assert!(matches!(a, Action::Receive));
}

#[test]
fn write_failure_goes_back_to_accepting() {
    let (s, a) = step(WorkerState::Streaming, Event::SendFailed);
    assert_eq!(s, WorkerState::WaitingForConnection);
    assert!(matches!(a, Action::Accept));
}

#[test]
fn closed_channel_closes_the_session() {
    let (s, a) = step(WorkerState::Streaming, Event::ChannelClosed);
    assert_eq!(s, WorkerState::Draining { attempts: 0 });
    assert!(matches!(a, Action::Close));
    let (s, a) = step(s, Event::FlushOk);
    assert_eq!(s, WorkerState::Closed);
    assert!(matches!(a, Action::Exit));
}

#[test]
fn flush_gives_up_after_bounded_attempts() {
    let mut s = WorkerState::Draining { attempts: 0 };
    let mut retries = 0;
    loop {
        let (next, a) = step(s, Event::FlushFailed);
        s = next;
        match a {
            Action::RetryFlush => retries += 1,
            Action::Exit => break,
            _ => panic!("unexpected action"),
        }
    }
    assert_eq!(s, WorkerState::Closed);
    assert_eq!(retries, MAX_FLUSH_ATTEMPTS - 1);
}

#[test]
fn closed_worker_stays_closed() {
    let (s, a) = step(WorkerState::Closed, Event::Connected);
    assert_eq!(s, WorkerState::Closed);
    assert!(matches!(a, Action::Exit));
}

#[test]
fn drain_before_close_in_order() {
    let frames: Vec<Vec<u8>> = (0..5u8).map(|i| vec![i; 3]).collect();
    let mut s = WorkerState::Streaming;
    let mut written = Vec::new();
    for f in frames.clone() {
        let (next, a) = step(s, Event::Received(f));
        match a {
            Action::Send(m) => written.push(m),
            _ => panic!("expected a send"),
        }
        let (next, a) = step(next, Event::SendOk);
        assert!(matches!(a, Action::Receive));
        s = next;
    }
    let (s, a) = step(s, Event::ChannelClosed);
    assert!(matches!(a, Action::Close));
    assert_eq!(written, frames);
    assert_eq!(s, WorkerState::Draining { attempts: 0 });
}
