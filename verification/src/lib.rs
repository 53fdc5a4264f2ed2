//! A verified core for a binding to Valve's GameNetworkingSockets.
//!
//! The C library itself is reached from the program around this crate; this crate
//! holds what the binding decides: result codes, the value model of the library's
//! records and messages, the life cycle of a socket, the event queue that the
//! connection-status hook fills, and the chat protocol of the example program.

pub mod result;
pub mod connection;
pub mod message;
pub mod queue;
pub mod text;
pub mod socket;
pub mod chat;


pub use result::{EResult, GnsError, GnsResult, RESULT_INVALID_STATE, RESULT_OK};
pub use connection::{
    ConnectionState, GnsConnection, GnsConnectionEvent, GnsConnectionInfo,
    GnsConnectionRealTimeLaneStatus, GnsConnectionRealTimeStatus, CONNECTION_INVALID,
};
pub use message::{
    unzip_lanes, GnsLane, GnsLaneId, GnsMessageNumber, GnsNetworkMessage, MayDrop, Priority,
    ToReceive, ToSend, Weight, SEND_RELIABLE,
};
pub use queue::EventQueue;
pub use socket::{
    lane_status_buffer, poll_step, read_connection_info, read_real_time_status, read_send_results,
    received_message_count,
    GlobalInit, GnsDroppable, GnsGlobal, GnsListenSocket, GnsPollGroup, GnsSocket, GnsUtils,
    IsClient, IsCreated, IsReady, IsServer, PendingConnect, PendingListen, PendingPollGroup,
    ReceiveSource, Teardown, LISTEN_SOCKET_INVALID, POLL_GROUP_INVALID,
};
