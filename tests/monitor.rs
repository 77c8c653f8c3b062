use std::sync::mpsc::{channel, Receiver};

use monitor_tab::monitor::clock_or_zero;
use monitor_tab::viewer::viewer_url;
use monitor_tab::worker::start;
use monitor_tab::{
    parse_frame, step, Action, Event, LogError, MonitorTab, Record, Sphere, Stl, WorkerState,
};

fn tab() -> (MonitorTab, Receiver<Vec<u8>>) {
    let (close_tx, _close_rx) = tokio::sync::oneshot::channel::<()>();
    let (tx, rx) = channel::<Vec<u8>>();
    (MonitorTab::from_parts(close_tx, tx), rx)
}

/// What a connected viewer sees: each binary message, then `None` for the
/// close frame.
fn deliver(rx: Receiver<Vec<u8>>) -> Vec<Option<Vec<u8>>> {
    let mut seen = Vec::new();
    let (mut state, mut action) = start();
    loop {
        let event = match action {
            Action::Accept => Event::Connected,
            Action::Receive => match rx.recv() {
                Ok(f) => Event::Received(f),
                Err(_) => Event::ChannelClosed,
            },
            Action::Send(f) => {
                seen.push(Some(f));
                Event::SendOk
            }
            Action::Close => {
                seen.push(None);
                Event::FlushOk
            }
            Action::RetryFlush => Event::FlushOk,
            Action::Exit => break,
        };
        let (s, a) = step(state, event);
        state = s;
        action = a;
    }
    assert_eq!(state, WorkerState::Closed);
    seen
}

#[test]
fn frame_logged_before_viewer_connects_is_delivered() {
    let (tab, rx) = tab();
    tab.log("/a", Sphere { radius: 1.0f64.to_bits() }).unwrap();
    drop(tab);
    let seen = deliver(rx);
    assert_eq!(seen.len(), 2);
    let f = seen[0].as_ref().unwrap();
    assert_eq!(u16::from_le_bytes([f[20], f[21]]), 2);
    assert_eq!(&f[22..], &1.0f64.to_le_bytes());
    let frame = parse_frame(f).unwrap();
    assert_eq!(frame.path, "/a");
    assert!(matches!(frame.record, Record::Sphere(_)));
    assert!(seen[1].is_none());
}

#[test]
fn concurrent_producers_keep_their_own_order() {
    let (tab, rx) = tab();
    let tab = std::sync::Arc::new(tab);
    let rt = tokio::runtime::Builder::new_multi_thread().worker_threads(4).build().unwrap();
    let mut handles = Vec::new();
    for p in 0..4u8 {
        let tab = tab.clone();
        handles.push(rt.spawn(async move {
            let path = format!("/p{}", p);
            for i in 0..250u16 {
                let data = Stl { data: i.to_le_bytes().to_vec() };
                tab.log(&path, data).unwrap();
            }
        }));
    }
    for h in handles {
        rt.block_on(h).unwrap();
    }
    drop(rt);
    let tab = std::sync::Arc::try_unwrap(tab).ok().unwrap();
    drop(tab);
    let seen = deliver(rx);
    assert_eq!(seen.len(), 1001);
    let mut next = [0u16; 4];
    for m in &seen[..1000] {
        let frame = parse_frame(m.as_ref().unwrap()).unwrap();
        let p = (frame.path.as_bytes()[2] - b'0') as usize;
        let i = match frame.record {
            Record::Stl(s) => u16::from_le_bytes([s.data[0], s.data[1]]),
            _ => panic!("expected a mesh"),
        };
        assert_eq!(i, next[p]);
        next[p] += 1;
    }
    assert_eq!(next, [250; 4]);
    assert!(seen[1000].is_none());
}

#[test]
fn queued_frames_are_written_before_close() {
    let (tab, rx) = tab();
    for i in 0..10u8 {
        tab.log("/q", Stl { data: vec![i] }).unwrap();
    }
    drop(tab);
    let seen = deliver(rx);
    assert_eq!(seen.len(), 11);
    for (i, m) in seen[..10].iter().enumerate() {
        let f = m.as_ref().unwrap();
        assert_eq!(*f.last().unwrap(), i as u8);
    }
    assert!(seen[10].is_none());
}

#[test]
fn timeline_overrides_clock() {
    let (mut tab, rx) = tab();
    assert_eq!(tab.timeline(), None);
    tab.set_timeline(42);
    assert_eq!(tab.timeline(), Some(42));
    tab.log("/t", Stl { data: vec![] }).unwrap();
    let f = rx.recv().unwrap();
    assert_eq!(u128::from_le_bytes(f[..16].try_into().unwrap()), 42);
    let built = tab.frame("/t", &Stl { data: vec![] }, 7).unwrap();
    assert_eq!(built, f);
}

#[test]
fn clock_stamps_frames_without_timeline() {
    let (tab, _rx) = tab();
    let f = tab.frame("/c", &Sphere { radius: 0 }, 99).unwrap();
    assert_eq!(u128::from_le_bytes(f[..16].try_into().unwrap()), 99);
}

#[test]
fn wall_clock_is_after_epoch() {
    let (tab, rx) = tab();
    tab.log("/w", Sphere { radius: 0 }).unwrap();
    let f = rx.recv().unwrap();
    assert!(u128::from_le_bytes(f[..16].try_into().unwrap()) > 0);
}

#[test]
fn logging_after_shutdown_reports_closed_channel() {
    let (tab, rx) = tab();
    drop(rx);
    assert_eq!(tab.log("/a", Sphere { radius: 0 }), Err(LogError::ChannelClosed));
}

#[test]
fn long_path_is_rejected_by_log() {
    let (tab, rx) = tab();
    let path = "y".repeat(65536);
    assert_eq!(tab.log(&path, Sphere { radius: 0 }), Err(LogError::PathTooLong));
    assert!(rx.try_recv().is_err());
}

#[test]
fn viewer_url_encodes_ws_port() {
    assert_eq!(viewer_url(9876, 9877), "http://localhost:9876/?addr=OTg3Nw==");
    assert_eq!(viewer_url(0, 65535), "http://localhost:0/?addr=NjU1MzU=");
    assert_eq!(viewer_url(80, 0), "http://localhost:80/?addr=MA==");
}

#[test]
fn clock_error_stamps_zero() {
    assert_eq!(clock_or_zero(None), 0);
    assert_eq!(clock_or_zero(Some(1_700_000_000_000_000_000)), 1_700_000_000_000_000_000);
}
