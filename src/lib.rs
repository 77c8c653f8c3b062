//! Binary logging protocol for a live geometry monitor: record and frame
//! encoding, the log handle, connection sniffing and the delivery worker's
//! decisions.
pub mod bytes;
pub mod codec;
pub mod frame;
pub mod monitor;
pub mod sniffer;
pub mod viewer;
pub mod worker;

pub use codec::{
    Arrow3, Box3, BoxLine3, Capsule, Cylinder, LoggableData, Matrix4, MeshMaterial, Record, Sphere,
    Stl,
};
pub use frame::{build_frame, parse_frame, DecodeError, Frame, FrameError};
pub use monitor::{LogError, MonitorTab};
pub use sniffer::{classify, Protocol};
pub use worker::{step, Action, Event, WorkerState};
