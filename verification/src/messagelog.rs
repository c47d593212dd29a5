//! Structured records describing a single frame's transit, for a
//! best-effort message-transit logger.
//!
//! The logger itself is a collaborator that forwards records to a broker
//! and swallows publish failures; this module holds the records and the
//! builder that assembles them. Timestamps are carried as microseconds
//! since the Unix epoch, time on air as microseconds, and the device
//! address and EUI-64 as plain integers.

pub mod mqtt;

use vstd::prelude::*;

verus! {

/// Outcome of a frame's transit.
#[allow(clippy::upper_case_acronyms)]
#[derive(Clone, Copy, Debug, PartialEq, Eq, Structural)]
pub enum FrameStatusResult {
    OK,
    NOK,
    WARN,
}

impl Default for FrameStatusResult {
    fn default() -> (r: Self)
        ensures
            r == FrameStatusResult::NOK,
    {
        FrameStatusResult::NOK
    }
}

/// Endpoint classification of a frame's source or destination.
#[derive(Clone, Copy, Debug, PartialEq, Eq, Structural)]
pub enum Endpoint {
    Gateway,
    Local,
    Roaming,
    JoinServer,
}

impl Default for Endpoint {
    fn default() -> (r: Self)
        ensures
            r == Endpoint::Local,
    {
        Endpoint::Local
    }
}

/// Outcome of a frame's transit with an optional error description.
#[derive(Clone, Debug)]
pub struct FrameStatus {
    pub result: FrameStatusResult,
    pub error_desc: String,
}

impl Default for FrameStatus {
    fn default() -> (r: Self)
        ensures
            r.result == FrameStatusResult::NOK,
            r.error_desc@ == Seq::<char>::empty(),
    {
        FrameStatus { result: FrameStatusResult::NOK, error_desc: String::new() }
    }
}

/// One frame's transit: when it was created and published, where it came
/// from and went to, how it fared, and which device it belongs to.
#[derive(Clone, Debug)]
pub struct LogEntry {
    /// Correlation identifier, a UUID carried as a 128-bit integer.
    pub ctx_id: u128,
    /// When the record was published, microseconds since the Unix epoch.
    pub publish_at: i64,
    /// When the record was created, microseconds since the Unix epoch.
    pub created_at: i64,
    pub log_source: Endpoint,
    pub source_id: String,
    pub log_destination: Endpoint,
    pub destination_id: String,
    pub frame_status: FrameStatus,
    /// Time on air of the frame, in microseconds.
    pub time_on_air: u64,
    /// Device address, a 32-bit value.
    pub dev_addr: u32,
    /// Device EUI-64 as an integer.
    pub dev_eui: u64,
    /// Whether the device is known to this network.
    pub known_device: bool,
}

impl Default for LogEntry {
    fn default() -> (r: Self)
        ensures
            r.ctx_id == 0,
            r.publish_at == 0,
            r.created_at == 0,
            r.log_source == Endpoint::Local,
            r.source_id@ == Seq::<char>::empty(),
            r.log_destination == Endpoint::Local,
            r.destination_id@ == Seq::<char>::empty(),
            r.frame_status.result == FrameStatusResult::NOK,
            r.frame_status.error_desc@ == Seq::<char>::empty(),
            r.time_on_air == 0,
            r.dev_addr == 0,
            r.dev_eui == 0,
            !r.known_device,
    {
        LogEntry {
            ctx_id: 0,
            publish_at: 0,
            created_at: 0,
            log_source: Endpoint::Local,
            source_id: String::new(),
            log_destination: Endpoint::Local,
            destination_id: String::new(),
            frame_status: FrameStatus::default(),
            time_on_air: 0,
            dev_addr: 0,
            dev_eui: 0,
            known_device: false,
        }
    }
}

/// Relies on chrono::Utc::now: the current wall-clock time, read from the
/// system clock, converted to microseconds since the Unix epoch. Nothing
/// is promised of the value: it depends on the clock. Note that
/// chrono::Utc::now itself panics on a clock set before the Unix epoch,
/// so builders stamped on such a machine inherit that panic.
#[verifier::external_body]
fn current_time_micros() -> i64 {
    chrono::Utc::now().timestamp_micros()
}

/// Assembles a transit record step by step: each setter hands the builder
/// back with one field changed, and `build` turns it into a record whose
/// remaining fields carry their defaults.
#[derive(Clone, Debug)]
pub struct LogEntryBuilder {
    /// When the record was created, microseconds since the Unix epoch.
    pub created_at: i64,
    pub log_source: Endpoint,
    pub source_id: String,
    pub log_destination: Endpoint,
    pub destination_id: String,
}

impl LogEntryBuilder {
    /// A fresh builder, stamped with the current wall-clock time; every
    /// other field starts at its default.
    pub fn new() -> (r: Self)
        ensures
            r.log_source == Endpoint::Local,
            r.source_id@ == Seq::<char>::empty(),
            r.log_destination == Endpoint::Local,
            r.destination_id@ == Seq::<char>::empty(),
    {
        LogEntryBuilder {
            created_at: current_time_micros(),
            log_source: Endpoint::Local,
            source_id: String::new(),
            log_destination: Endpoint::Local,
            destination_id: String::new(),
        }
    }

    pub fn log_source(self, v: Endpoint) -> (r: Self)
        ensures
            r.log_source == v,
            r.created_at == self.created_at,
            r.source_id == self.source_id,
            r.log_destination == self.log_destination,
            r.destination_id == self.destination_id,
    {
        let mut b = self;
        b.log_source = v;
        b
    }

    pub fn log_destination(self, v: Endpoint) -> (r: Self)
        ensures
            r.log_destination == v,
            r.created_at == self.created_at,
            r.log_source == self.log_source,
            r.source_id == self.source_id,
            r.destination_id == self.destination_id,
    {
        let mut b = self;
        b.log_destination = v;
        b
    }

    /// Record this network as the destination. The identifier of the
    /// network is configured at startup, outside this crate, and is handed
    /// in by the caller.
    pub fn our_desitnation_id(self, net_id: String) -> (r: Self)
        ensures
            r.destination_id == net_id,
            r.created_at == self.created_at,
            r.log_source == self.log_source,
            r.source_id == self.source_id,
            r.log_destination == self.log_destination,
    {
        let mut b = self;
        b.destination_id = net_id;
        b
    }

    pub fn source_id(self, v: String) -> (r: Self)
        ensures
            r.source_id == v,
            r.created_at == self.created_at,
            r.log_source == self.log_source,
            r.log_destination == self.log_destination,
            r.destination_id == self.destination_id,
    {
        let mut b = self;
        b.source_id = v;
        b
    }

    /// The assembled record: the builder's fields carried over, every other
    /// field at its default.
    pub fn build(self) -> (r: LogEntry)
        ensures
            r.created_at == self.created_at,
            r.log_source == self.log_source,
            r.source_id == self.source_id,
            r.log_destination == self.log_destination,
            r.destination_id == self.destination_id,
            r.ctx_id == 0,
            r.publish_at == 0,
            r.frame_status.result == FrameStatusResult::NOK,
            r.frame_status.error_desc@ == Seq::<char>::empty(),
            r.time_on_air == 0,
            r.dev_addr == 0,
            r.dev_eui == 0,
            !r.known_device,
    {
        LogEntry {
            created_at: self.created_at,
            log_source: self.log_source,
            source_id: self.source_id,
            log_destination: self.log_destination,
            destination_id: self.destination_id,
            ctx_id: 0,
            publish_at: 0,
            frame_status: FrameStatus::default(),
            time_on_air: 0,
            dev_addr: 0,
            dev_eui: 0,
            known_device: false,
        }
    }
}

} // verus!
