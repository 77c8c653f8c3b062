//! The monitor handle: the caller's side of the log channel.
use vstd::prelude::*;
use vstd::string::StringSliceAdditionalSpecFns;

use crate::codec::LoggableData;
use crate::frame::{build_frame, frame_bytes, FrameError, MAX_PATH_LEN};

verus! {

/// `std::sync::mpsc::Sender`, the producer end of the log channel; opaque.
#[verifier::external_type_specification]
#[verifier::external_body]
#[verifier::reject_recursive_types(T)]
pub struct ExSender<T>(std::sync::mpsc::Sender<T>);

/// `std::sync::mpsc::SendError`, the error of a send on a closed channel;
/// opaque.
#[verifier::external_type_specification]
#[verifier::external_body]
#[verifier::reject_recursive_types(T)]
pub struct ExSendError<T>(std::sync::mpsc::SendError<T>);

/// `tokio::sync::oneshot::Sender`, whose drop stops the asset server; opaque.
#[verifier::external_type_specification]
#[verifier::external_body]
#[verifier::reject_recursive_types(T)]
pub struct ExOneshotSender<T>(tokio::sync::oneshot::Sender<T>);

/// The asset server's port when none is given.
pub const DEFAULT_HTTP_PORT: u16 = 9876;

/// The port that the viewer page is opened on when none is given.
pub const DEFAULT_OPEN_PORT: u16 = 9876;

/// The delivery worker's WebSocket port when none is given.
pub const DEFAULT_WS_PORT: u16 = 9877;

/// Why a log call failed.
#[derive(PartialEq, Eq, Structural, Debug, Clone, Copy)]
pub enum LogError {
    /// The path holds more than 65535 bytes.
    PathTooLong,
    /// The delivery worker has stopped: nothing receives frames any more.
    ChannelClosed,
}

/// Relies on `SystemTime::elapsed` on `UNIX_EPOCH`: nanoseconds since the
/// epoch by the system clock, or `None` where the clock cannot be read that
/// way. Nothing is promised of the reading.
#[verifier::external_body]
fn wall_clock_nanos() -> Option<u128> {
    match std::time::UNIX_EPOCH.elapsed() {
        Ok(d) => Some(d.as_nanos()),
        Err(_) => None,
    }
}

/// The clock's reading as a timestamp: a clock error stamps zero rather than
/// failing the log call.
pub fn clock_or_zero(reading: Option<u128>) -> (r: u128)
    ensures
        r == match reading {
            Some(n) => n,
            None => 0,
        },
{
    match reading {
        Some(n) => n,
        None => 0,
    }
}

/// Relies on `mpsc::Sender::send`: queues the frame, or fails once the
/// receiving end is gone. Which of the two happens depends on the other
/// thread.
#[verifier::external_body]
fn send_frame(tx: &std::sync::mpsc::Sender<Vec<u8>>, frame: Vec<u8>) -> Result<
    (),
    std::sync::mpsc::SendError<Vec<u8>>,
> {
    tx.send(frame)
}

/// A live monitoring session: log calls build frames and queue them for the
/// delivery worker.
pub struct MonitorTab {
    _close_tx: tokio::sync::oneshot::Sender<()>,
    tx: std::sync::mpsc::Sender<Vec<u8>>,
    timeline: Option<u128>,
}

impl MonitorTab {
    /// The logical timestamp that overrides the clock, if one was set.
    pub closed spec fn timeline_spec(&self) -> Option<u128> {
        self.timeline
    }

    /// The timestamp that a frame built now gets, given the clock's reading.
    pub open spec fn stamp(&self, clock: u128) -> u128 {
        match self.timeline_spec() {
            Some(t) => t,
            None => clock,
        }
    }

    /// A handle over the channel ends that the background workers listen on:
    /// `tx` feeds the delivery worker, and dropping `close_tx` stops the
    /// asset server.
    pub fn from_parts(
        close_tx: tokio::sync::oneshot::Sender<()>,
        tx: std::sync::mpsc::Sender<Vec<u8>>,
    ) -> (r: MonitorTab)
        ensures
            r.timeline_spec() == None::<u128>,
    {
        MonitorTab { _close_tx: close_tx, tx, timeline: None }
    }

    /// Stamps every later frame with `timestamp` instead of the clock.
    pub fn set_timeline(&mut self, timestamp: u128)
        ensures
            final(self).timeline_spec() == Some(timestamp),
    {
        self.timeline = Some(timestamp);
    }

    pub fn timeline(&self) -> (r: Option<u128>)
        ensures
            r == self.timeline_spec(),
    {
        self.timeline
    }

    /// The frame that logging `data` under `path` queues when the clock reads
    /// `clock`.
    pub fn frame<T: LoggableData>(&self, path: &str, data: &T, clock: u128) -> (r: Result<
        Vec<u8>,
        LogError,
    >)
        ensures
            r is Ok <==> path.spec_bytes().len() <= MAX_PATH_LEN,
            r matches Ok(f) ==> f@ == frame_bytes(
                self.stamp(clock),
                path.spec_bytes(),
                data.tag(),
                data.encoding(),
            ),
            r matches Err(e) ==> e == LogError::PathTooLong,
    {
        let timestamp = match self.timeline {
            Some(t) => t,
            None => clock,
        };
        match build_frame(timestamp, path, data) {
            Ok(f) => Ok(f),
            Err(FrameError::PathTooLong) => Err(LogError::PathTooLong),
        }
    }

    /// Logs `data` under `path`: builds its frame and queues it for the
    /// viewer. Fails on a path too long for the frame, or once the delivery
    /// worker has stopped.
    pub fn log<T: LoggableData>(&self, path: &str, data: T) -> (r: Result<(), LogError>)
        ensures
            r == Err::<(), LogError>(LogError::PathTooLong) <==> path.spec_bytes().len()
                > MAX_PATH_LEN,
            r matches Err(e) ==> e == LogError::PathTooLong || e == LogError::ChannelClosed,
    {
        let clock = clock_or_zero(wall_clock_nanos());
        let f = match self.frame(path, &data, clock) {
            Ok(f) => f,
            Err(e) => {
                return Err(e);
            },
        };
        match send_frame(&self.tx, f) {
            Ok(()) => Ok(()),
            Err(_) => Err(LogError::ChannelClosed),
        }
    }
}

} // verus!
