use vstd::prelude::*;

verus! {

/// The handle of a connection (`HSteamNetConnection`).
#[derive(Copy, Clone, Debug, PartialEq, Eq, Structural, PartialOrd, Ord, Hash)]
pub struct GnsConnection(pub u32);

/// The handle that the library never hands out for a live connection
/// (`k_HSteamNetConnection_Invalid`).
pub const CONNECTION_INVALID: u32 = 0;

/// The state of a connection (`ESteamNetworkingConnectionState`).
#[derive(Copy, Clone, Debug, PartialEq, Eq, Structural, Hash)]
pub enum ConnectionState {
    /// `k_ESteamNetworkingConnectionState_None`: no such connection, or not yet one.
    NoConnection,
    Connecting,
    FindingRoute,
    Connected,
    ClosedByPeer,
    ProblemDetectedLocally,
    FinWait,
    Linger,
    Dead,
    Force32Bit,
}

/// What the library reports of a connection (`SteamNetConnectionInfo_t`), as far as
/// this crate reads it.
#[derive(Copy, Clone, Debug)]
pub struct GnsConnectionInfo {
    /// `m_eState`.
    pub state: ConnectionState,
    /// `m_eEndReason`, a value of `ESteamNetConnectionEnd`.
    pub end_reason: i32,
    /// The sixteen octets of the remote IPv6 address (`m_addrRemote.m_ipv6`).
    pub remote_ipv6: [u8; 16],
    /// `m_addrRemote.m_port`.
    pub remote_port: u16,
}

impl GnsConnectionInfo {
    #[inline]
    pub fn state(&self) -> (r: ConnectionState)
        ensures
            r == self.state,
    {
        self.state
    }

    /// See ESteamNetConnectionEnd
    #[inline]
    pub fn end_reason(&self) -> (r: u32)
        ensures
            r == self.end_reason as u32,
    {
        self.end_reason as u32
    }

    /// The octets of the remote IPv6 address.
    #[inline]
    pub fn remote_address(&self) -> (r: [u8; 16])
        ensures
            r == self.remote_ipv6,
    {
        self.remote_ipv6
    }

    #[inline]
    pub fn remote_port(&self) -> (r: u16)
        ensures
            r == self.remote_port,
    {
        self.remote_port
    }
}

/// The per-lane part of a connection's real-time status
/// (`SteamNetConnectionRealTimeLaneStatus_t`).
#[derive(Debug, Copy, Clone, Hash, PartialEq, Eq, Structural, PartialOrd, Ord)]
pub struct GnsConnectionRealTimeLaneStatus {
    /// `m_cbPendingUnreliable`.
    pub pending_unreliable: i32,
    /// `m_cbPendingReliable`.
    pub pending_reliable: i32,
    /// `m_cbSentUnackedReliable`.
    pub sent_unacked_reliable: i32,
    /// `m_usecQueueTime`.
    pub queue_time: i64,
}

impl Default for GnsConnectionRealTimeLaneStatus {
    /// The zeroed lane status that the library overwrites.
    fn default() -> (r: Self)
        ensures
            r == lane_status_zero(),
    {
        GnsConnectionRealTimeLaneStatus {
            pending_unreliable: 0,
            pending_reliable: 0,
            sent_unacked_reliable: 0,
            queue_time: 0,
        }
    }
}

/// A lane status with every counter at zero.
pub open spec fn lane_status_zero() -> GnsConnectionRealTimeLaneStatus {
    GnsConnectionRealTimeLaneStatus {
        pending_unreliable: 0,
        pending_reliable: 0,
        sent_unacked_reliable: 0,
        queue_time: 0,
    }
}

/// The integral part of a connection's real-time status
/// (`SteamNetConnectionRealTimeStatus_t`); the rates and qualities, which are
/// floating point, stay with the caller.
#[derive(Debug, Copy, Clone, PartialEq, Eq, Structural)]
pub struct GnsConnectionRealTimeStatus {
    /// `m_eState`.
    pub state: ConnectionState,
    /// `m_nPing`.
    pub ping: i32,
    /// `m_nSendRateBytesPerSecond`.
    pub send_rate_bytes_per_sec: i32,
    /// `m_cbPendingUnreliable`.
    pub pending_unreliable: i32,
    /// `m_cbPendingReliable`.
    pub pending_reliable: i32,
    /// `m_cbSentUnackedReliable`.
    pub sent_unacked_reliable: i32,
    /// `m_usecQueueTime`.
    pub queue_time: i64,
}

impl GnsConnectionRealTimeStatus {
    #[inline]
    pub fn state(&self) -> (r: ConnectionState)
        ensures
            r == self.state,
    {
        self.state
    }

    #[inline]
    pub fn ping(&self) -> (r: u32)
        ensures
            r == self.ping as u32,
    {
        self.ping as u32
    }

    #[inline]
    pub fn send_rate_bytes_per_sec(&self) -> (r: u32)
        ensures
            r == self.send_rate_bytes_per_sec as u32,
    {
        self.send_rate_bytes_per_sec as u32
    }

    #[inline]
    pub fn pending_bytes_unreliable(&self) -> (r: u32)
        ensures
            r == self.pending_unreliable as u32,
    {
        self.pending_unreliable as u32
    }

    #[inline]
    pub fn pending_bytes_reliable(&self) -> (r: u32)
        ensures
            r == self.pending_reliable as u32,
    {
        self.pending_reliable as u32
    }

    #[inline]
    pub fn bytes_sent_unacked_reliable(&self) -> (r: u32)
        ensures
            r == self.sent_unacked_reliable as u32,
    {
        self.sent_unacked_reliable as u32
    }

    #[inline]
    pub fn approximated_queue_time(&self) -> (r: u64)
        ensures
            r == self.queue_time as u64,
    {
        self.queue_time as u64
    }
}

/// A change of a connection's state, as the status-changed hook reports it
/// (`SteamNetConnectionStatusChangedCallback_t`).
#[derive(Copy, Clone, Debug)]
pub struct GnsConnectionEvent {
    /// `m_hConn`.
    pub connection: GnsConnection,
    /// `m_info`.
    pub info: GnsConnectionInfo,
    /// `m_eOldState`.
    pub old_state: ConnectionState,
}

impl GnsConnectionEvent {
    #[inline]
    pub fn old_state(&self) -> (r: ConnectionState)
        ensures
            r == self.old_state,
    {
        self.old_state
    }

    #[inline]
    pub fn connection(&self) -> (r: GnsConnection)
        ensures
            r == self.connection,
    {
        self.connection
    }

    #[inline]
    pub fn info(&self) -> (r: GnsConnectionInfo)
        ensures
            r == self.info,
    {
        self.info
    }
}

} // verus!
