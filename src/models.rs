use vstd::prelude::*;

verus! {

/// The header that the measurement tool writes before a run.
#[derive(Clone, Debug, Default)]
pub struct Start {
    pub connected: Vec<Connected>,
    pub version: String,
    pub system_info: String,
    pub timestamp: Timestamp,
    pub connecting_to: ConnectingTo,
    pub cookie: String,
    pub tcp_mss_default: u32,
    pub target_bitrate: u64,
    pub fq_rate: u64,
    pub sock_bufsize: u64,
    pub sndbuf_actual: u64,
    pub rcvbuf_actual: u64,
    pub test_start: TestStart,
}

/// One connection that the run opened.
#[derive(Clone, Debug, Default)]
pub struct Connected {
    pub socket: u32,
    pub local_host: String,
    pub local_port: u16,
    pub remote_host: String,
    pub remote_port: u16,
}

/// When the run began: as text for display, and in seconds since the epoch.
#[derive(Clone, Debug, Default)]
pub struct Timestamp {
    pub time: String,
    pub timesecs: u64,
}

/// The peer that the run measured against.
#[derive(Clone, Debug, Default)]
pub struct ConnectingTo {
    pub host: String,
    pub port: u16,
}

/// The parameters the run was started with.
#[derive(Clone, Debug, Default)]
pub struct TestStart {
    pub protocol: String,
    pub num_streams: u32,
    pub blksize: u64,
    pub omit: u64,
    pub duration: u64,
    pub bytes: u64,
    pub blocks: u64,
    pub reverse: u32,
    pub tos: u32,
    pub target_bitrate: u64,
    pub bidir: u32,
    pub fqrate: u64,
}

} // verus!
