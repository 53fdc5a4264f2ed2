use vstd::prelude::*;
use crate::result::{EResult, GnsResult, RESULT_OK, RESULT_INVALID_STATE};
use crate::connection::{
    GnsConnection, GnsConnectionEvent, GnsConnectionInfo, GnsConnectionRealTimeStatus,
    GnsConnectionRealTimeLaneStatus, lane_status_zero, CONNECTION_INVALID,
};
use crate::message::{GnsNetworkMessage, ToSend, ToReceive, GnsMessageNumber, allocated_view};
use crate::queue::{EventQueue, new_event_queue, pop_event};

verus! {

/// The words with which `GnsGlobal::get` refuses a second handle.
pub open spec fn already_held_message() -> Seq<char> {
    "Only one handle of GnsGlobal must be held by a program. If the value is dropped, another handle might be created."@
}

/// The handle on the initialised library. At most one exists at a time in a program.
pub struct GnsGlobal(());

/// The right to initialise the library, granted to the caller that claimed the
/// process-wide slot.
pub struct GlobalInit(());

impl GnsGlobal {
    /// First step of getting the handle: `claimed` tells whether this caller turned the
    /// process-wide slot from free to taken. Only then may the library be initialised.
    pub fn get(claimed: bool) -> (r: Result<GlobalInit, String>)
        ensures
            r is Ok <==> claimed,
            r matches Err(message) ==> message@ == already_held_message(),
    {
        if !claimed {
            let message = String::from_str(
                "Only one handle of GnsGlobal must be held by a program. If the value is dropped, another handle might be created.",
            );
            proof {
                reveal_strlit(
                    "Only one handle of GnsGlobal must be held by a program. If the value is dropped, another handle might be created.",
                );
            }
            Err(message)
        } else {
            Ok(GlobalInit(()))
        }
    }
}

impl GlobalInit {
    /// Second step: the library was initialised, or it failed with `error`; on failure
    /// the slot must be given back by the caller.
    pub fn finish(self, initialized: bool, error: String) -> (r: Result<GnsGlobal, String>)
        ensures
            r is Ok <==> initialized,
            r matches Err(message) ==> message@ == error@,
    {
        if !initialized {
            Err(error)
        } else {
            Ok(GnsGlobal(()))
        }
    }
}

/// The address of the library's `ISteamNetworkingUtils` interface.
#[derive(Copy, Clone)]
pub struct GnsUtils(usize);

impl GnsUtils {
    pub closed spec fn interface_spec(self) -> usize {
        self.0
    }

    /// Wraps the interface address that `SteamNetworkingUtils` gave; a null address
    /// means that the library is not available.
    #[inline]
    pub fn new(interface: usize) -> (r: Option<Self>)
        ensures
            r is None <==> interface == 0,
            r matches Some(utils) ==> utils.interface_spec() == interface,
    {
        if interface == 0 {
            None
        } else {
            Some(GnsUtils(interface))
        }
    }

    /// A message to send on `conn`: a buffer of `payload.len()` bytes as
    /// `AllocateMessage` hands it out, with `flags`, the payload and the connection set.
    #[inline]
    pub fn allocate_message(&self, conn: GnsConnection, flags: i32, payload: &[u8]) -> (r:
        GnsNetworkMessage<ToSend>)
        ensures
            r@ == allocated_view(payload@.len()).with_flags(flags).with_payload(
                payload@,
            ).with_connection(conn),
            r@.connection == conn,
            r@.flags == flags,
            r@.payload == payload@,
            r@.lane == 0,
            r@.user_data == 0,
    {
        let message = GnsNetworkMessage::<ToSend>::allocated(payload.len());
        let r = message.new(conn, flags, payload);
        assert(r@.payload =~= payload@);
        r
    }

    #[inline]
    pub fn into_inner(self) -> (r: usize)
        ensures
            r == self.interface_spec(),
    {
        self.0
    }
}

/// The handle of a listen socket (`HSteamListenSocket`).
#[derive(Copy, Clone, Debug, PartialEq, Eq, Structural)]
pub struct GnsListenSocket(pub u32);

/// The handle of a poll group (`HSteamNetPollGroup`).
#[derive(Copy, Clone, Debug, PartialEq, Eq, Structural)]
pub struct GnsPollGroup(pub u32);

/// `k_HSteamListenSocket_Invalid`.
pub const LISTEN_SOCKET_INVALID: u32 = 0;

/// `k_HSteamNetPollGroup_Invalid`.
pub const POLL_GROUP_INVALID: u32 = 0;

/// What must be given back to the library when a socket in some state goes away.
#[derive(Copy, Clone, Debug, PartialEq, Eq, Structural)]
pub enum Teardown {
    Nothing,
    /// Close the listen socket, then destroy the poll group.
    CloseListenSocket { listen_socket: GnsListenSocket, poll_group: GnsPollGroup },
    /// Close the connection, with reason 0, no debug text and no linger.
    CloseConnection { connection: GnsConnection },
}

/// Where a ready socket receives its messages from.
#[derive(Copy, Clone, Debug, PartialEq, Eq, Structural)]
pub enum ReceiveSource {
    PollGroup(GnsPollGroup),
    Connection(GnsConnection),
}

/// A state of a socket, and what it holds that must be released.
pub trait GnsDroppable: Sized {
    spec fn teardown_spec(&self) -> Teardown;

    fn teardown(&self) -> (r: Teardown)
        ensures
            r == self.teardown_spec(),
    ;
}

/// A socket that was created but neither listens nor connects.
pub struct IsCreated;

impl GnsDroppable for IsCreated {
    open spec fn teardown_spec(&self) -> Teardown {
        Teardown::Nothing
    }

    fn teardown(&self) -> (r: Teardown) {
        Teardown::Nothing
    }
}

/// A state in which the socket exchanges messages and reports connection events.
pub trait IsReady: GnsDroppable {
    /// The queue into which the status hook pushes this socket's connection events.
    spec fn events(&self) -> Box<EventQueue>;

    fn queue(&self) -> (r: &EventQueue)
        ensures
            *r == *self.events(),
    ;

    spec fn receive_source_spec(&self) -> ReceiveSource;

    fn receive_source(&self) -> (r: ReceiveSource)
        ensures
            r == self.receive_source_spec(),
    ;
}

/// A listening socket: its event queue, its listen socket and the poll group into
/// which accepted connections go.
pub struct IsServer {
    queue: Box<EventQueue>,
    listen_socket: GnsListenSocket,
    poll_group: GnsPollGroup,
}

impl IsServer {
    pub closed spec fn listen_socket_spec(&self) -> GnsListenSocket {
        self.listen_socket
    }

    pub closed spec fn poll_group_spec(&self) -> GnsPollGroup {
        self.poll_group
    }
}

impl GnsDroppable for IsServer {
    open spec fn teardown_spec(&self) -> Teardown {
        Teardown::CloseListenSocket {
            listen_socket: self.listen_socket_spec(),
            poll_group: self.poll_group_spec(),
        }
    }

    fn teardown(&self) -> (r: Teardown) {
        Teardown::CloseListenSocket { listen_socket: self.listen_socket, poll_group: self.poll_group }
    }
}

impl IsReady for IsServer {
    closed spec fn events(&self) -> Box<EventQueue> {
        self.queue
    }

    #[inline]
    fn queue(&self) -> (r: &EventQueue) {
        &self.queue
    }

    open spec fn receive_source_spec(&self) -> ReceiveSource {
        ReceiveSource::PollGroup(self.poll_group_spec())
    }

    #[inline]
    fn receive_source(&self) -> (r: ReceiveSource) {
        ReceiveSource::PollGroup(self.poll_group)
    }
}

/// A connecting socket: its event queue and its connection.
pub struct IsClient {
    queue: Box<EventQueue>,
    connection: GnsConnection,
}

impl IsClient {
    pub closed spec fn connection_spec(&self) -> GnsConnection {
        self.connection
    }
}

impl GnsDroppable for IsClient {
    open spec fn teardown_spec(&self) -> Teardown {
        Teardown::CloseConnection { connection: self.connection_spec() }
    }

    fn teardown(&self) -> (r: Teardown) {
        Teardown::CloseConnection { connection: self.connection }
    }
}

impl IsReady for IsClient {
    closed spec fn events(&self) -> Box<EventQueue> {
        self.queue
    }

    #[inline]
    fn queue(&self) -> (r: &EventQueue) {
        &self.queue
    }

    open spec fn receive_source_spec(&self) -> ReceiveSource {
        ReceiveSource::Connection(self.connection_spec())
    }

    #[inline]
    fn receive_source(&self) -> (r: ReceiveSource) {
        ReceiveSource::Connection(self.connection)
    }
}

/// A socket interface of the library (`ISteamNetworkingSockets`), in one of its states.
pub struct GnsSocket<'x, S: GnsDroppable> {
    global: &'x GnsGlobal,
    utils: GnsUtils,
    socket: usize,
    state: S,
}

impl<'x, S: GnsDroppable> GnsSocket<'x, S> {
    pub closed spec fn interface_spec(&self) -> usize {
        self.socket
    }

    pub closed spec fn utils_spec(&self) -> GnsUtils {
        self.utils
    }

    pub closed spec fn state_spec(&self) -> S {
        self.state
    }

    pub closed spec fn global_spec(&self) -> &'x GnsGlobal {
        self.global
    }

    /// The address of the socket interface.
    #[inline]
    pub fn into_inner(self) -> (r: usize)
        ensures
            r == self.interface_spec(),
    {
        self.socket
    }

    /// The address of the socket interface, for the calls into the library.
    #[inline]
    pub fn interface(&self) -> (r: usize)
        ensures
            r == self.interface_spec(),
    {
        self.socket
    }

    #[inline]
    pub fn utils(&self) -> (r: &GnsUtils)
        ensures
            *r == self.utils_spec(),
    {
        &self.utils
    }

    #[inline]
    pub fn state(&self) -> (r: &S)
        ensures
            *r == self.state_spec(),
    {
        &self.state
    }
}

impl<'x, S: GnsDroppable + IsReady> GnsSocket<'x, S> {
    /// Hands the connection events that wait in the queue to `event_callback`, oldest
    /// first, and stops after `K` of them when `K` is not zero (with `K` zero it goes on
    /// until the queue is empty). Answers how many it handed out; what each popped event
    /// becomes is `poll_step`.
    #[inline]
    pub fn poll_event<const K: usize, F>(&self, event_callback: F) -> (processed: usize) where
        F: FnMut(GnsConnectionEvent),

        requires
            forall|event: GnsConnectionEvent| call_requires(event_callback, (event,)),
        ensures
            K > 0 ==> processed <= K,
            exists|delivered: Seq<GnsConnectionEvent>|
                {
                    &&& delivered.len() == processed
                    &&& forall|i: int|
                        0 <= i < delivered.len() ==> call_ensures(
                            event_callback,
                            (#[trigger] delivered[i],),
                            (),
                        )
                },
    {
        let ghost callback = event_callback;
        let mut event_callback = event_callback;
        let queue = self.state.queue();
        let mut processed: usize = 0;
        let ghost mut delivered: Seq<GnsConnectionEvent> = Seq::empty();
        while processed < usize::MAX
            invariant_except_break
                K > 0 ==> processed < K,
            invariant
                event_callback == callback,
                forall|event: GnsConnectionEvent| call_requires(callback, (event,)),
                delivered.len() == processed,
                forall|i: int|
                    0 <= i < delivered.len() ==> call_ensures(callback, (#[trigger] delivered[i],), ()),
            ensures
                K > 0 ==> processed <= K,
                delivered.len() == processed,
                forall|i: int|
                    0 <= i < delivered.len() ==> call_ensures(callback, (#[trigger] delivered[i],), ()),
            decreases usize::MAX - processed,
        {
            let (handed, next, stop) = poll_step(K, processed, pop_event(queue));
            match handed {
                Some(event) => {
                    event_callback(event);
                    proof {
                        delivered = delivered.push(event);
                    }
                },
                None => {},
            }
            processed = next;
            if stop {
                break ;
            }
        }
        assert(delivered.len() == processed);
        processed
    }

    /// Hands the messages that a receive call returned to `message_callback`, in order,
    /// and answers how many there were.
    #[inline]
    pub fn poll_messages<const K: usize, F>(
        &self,
        received: Vec<GnsNetworkMessage<ToReceive>>,
        message_callback: F,
    ) -> (r: usize) where F: FnMut(&GnsNetworkMessage<ToReceive>)
        requires
            received@.len() <= K,
            forall|message: &GnsNetworkMessage<ToReceive>| call_requires(message_callback, (message,)),
        ensures
            r == received@.len(),
            forall|i: int|
                0 <= i < received@.len() ==> call_ensures(
                    message_callback,
                    (&(#[trigger] received@[i]),),
                    (),
                ),
    {
        let ghost callback = message_callback;
        let mut message_callback = message_callback;
        let mut i: usize = 0;
        while i < received.len()
            invariant
                i <= received@.len(),
                message_callback == callback,
                forall|message: &GnsNetworkMessage<ToReceive>| call_requires(callback, (message,)),
                forall|k: int| 0 <= k < i ==> call_ensures(callback, (&(#[trigger] received@[k]),), ()),
            decreases received@.len() - i,
        {
            message_callback(&received[i]);
            i = i + 1;
        }
        received.len()
    }
}

/// One round of `poll_event`, after the queue answered `popped`: an event is handed to
/// the callback and counted, and the polling stops when the count reaches `k` (a `k` of
/// zero sets no limit); an empty queue hands nothing out and stops the polling.
/// Answers what to hand out, the new count, and whether to stop.
pub fn poll_step(k: usize, processed: usize, popped: Option<GnsConnectionEvent>) -> (r: (
    Option<GnsConnectionEvent>,
    usize,
    bool,
))
    requires
        k == 0 || processed < k,
        processed < usize::MAX,
    ensures
        popped is None ==> r == (None::<GnsConnectionEvent>, processed, true),
        popped matches Some(e) ==> r == (Some(e), (processed + 1) as usize, k != 0 && processed
            + 1 == k),
{
    match popped {
        Some(event) => {
            let next = processed + 1;
            (Some(event), next, next == k)
        },
        None => (None, processed, true),
    }
}

/// The number of messages that a receive call reports: its answer when it is not
/// negative, none when the call failed with -1 (an unknown connection or poll group).
pub fn received_message_count(returned: i32) -> (r: usize)
    ensures
        returned < 0 ==> r == 0,
        returned >= 0 ==> r == returned,
{
    if returned < 0 {
        0
    } else {
        returned as usize
    }
}

/// A buffer of `nb_of_lanes` zeroed lane statuses, for the library to fill.
pub fn lane_status_buffer(nb_of_lanes: u32) -> (r: Vec<GnsConnectionRealTimeLaneStatus>)
    ensures
        r@ == Seq::new(nb_of_lanes as nat, |_i: int| lane_status_zero()),
{
    let mut lanes: Vec<GnsConnectionRealTimeLaneStatus> = Vec::new();
    let mut i: u32 = 0;
    while i < nb_of_lanes
        invariant
            i <= nb_of_lanes,
            lanes@ == Seq::new(i as nat, |_k: int| lane_status_zero()),
        decreases nb_of_lanes - i,
    {
        lanes.push(GnsConnectionRealTimeLaneStatus::default());
        i = i + 1;
        assert(lanes@ =~= Seq::new(i as nat, |_k: int| lane_status_zero()));
    }
    lanes
}

/// What `GetConnectionRealTimeStatus` answers: the status and the lanes when the call
/// reported `k_EResultOK`, its code otherwise.
pub fn read_real_time_status(
    result: EResult,
    status: GnsConnectionRealTimeStatus,
    lanes: Vec<GnsConnectionRealTimeLaneStatus>,
) -> (r: GnsResult<(GnsConnectionRealTimeStatus, Vec<GnsConnectionRealTimeLaneStatus>)>)
    ensures
        result.0 == RESULT_OK ==> (r matches Ok((s, l)) && s == status && l@ == lanes@),
        result.0 != RESULT_OK ==> r == Err::<
            (GnsConnectionRealTimeStatus, Vec<GnsConnectionRealTimeLaneStatus>),
            EResult,
        >(result),
{
    if result.is_ok() {
        Ok((status, lanes))
    } else {
        Err(result)
    }
}

/// What `GetConnectionInfo` answers: the information when the call found the
/// connection.
pub fn read_connection_info(found: bool, info: GnsConnectionInfo) -> (r: Option<GnsConnectionInfo>)
    ensures
        r is Some <==> found,
        r matches Some(i) ==> i == info,
{
    if found {
        Some(info)
    } else {
        None
    }
}

/// How `SendMessages` reports one message: a message number, or a negated result code.
pub open spec fn send_outcome(value: i64) -> Result<GnsMessageNumber, EResult> {
    if value < 0 {
        Err(EResult((-value) as u32))
    } else {
        Ok(value as u64)
    }
}

/// Reads the values that `SendMessages` wrote, one per message.
pub fn read_send_results(values: &Vec<i64>) -> (r: Vec<Result<GnsMessageNumber, EResult>>)
    requires
        forall|i: int| 0 <= i < values@.len() ==> values@[i] > i64::MIN,
    ensures
        r@.len() == values@.len(),
        forall|i: int| 0 <= i < values@.len() ==> r@[i] == send_outcome(#[trigger] values@[i]),
{
    let mut results: Vec<Result<GnsMessageNumber, EResult>> = Vec::new();
    let mut i: usize = 0;
    while i < values.len()
        invariant
            i <= values@.len(),
            results@.len() == i,
            forall|k: int| 0 <= k < values@.len() ==> values@[k] > i64::MIN,
            forall|k: int| 0 <= k < i ==> results@[k] == send_outcome(#[trigger] values@[k]),
        decreases values@.len() - i,
    {
        let value = values[i];
        if value < 0 {
            results.push(Err(EResult((-value) as u32)));
        } else {
            results.push(Ok(value as u64));
        }
        i = i + 1;
    }
    results
}

/// A socket that is about to listen: its event queue exists, so that its address can be
/// given to the library with the listen call.
pub struct PendingListen<'x> {
    socket: GnsSocket<'x, IsCreated>,
    queue: Box<EventQueue>,
}

/// A socket whose listen socket exists and which waits for its poll group.
pub struct PendingPollGroup<'x> {
    socket: GnsSocket<'x, IsCreated>,
    queue: Box<EventQueue>,
    listen_socket: GnsListenSocket,
}

/// A socket that is about to connect: its event queue exists, so that its address can
/// be given to the library with the connect call.
pub struct PendingConnect<'x> {
    socket: GnsSocket<'x, IsCreated>,
    queue: Box<EventQueue>,
}

impl<'x> GnsSocket<'x, IsCreated> {
    /// A socket over the interface at address `socket`; a null address means that the
    /// library gave none.
    #[inline]
    pub fn new(global: &'x GnsGlobal, utils: GnsUtils, socket: usize) -> (r: Option<Self>)
        ensures
            r is None <==> socket == 0,
            r matches Some(s) ==> s.interface_spec() == socket && s.utils_spec() == utils
                && s.global_spec() == global,
    {
        if socket == 0 {
            None
        } else {
            Some(GnsSocket { global, utils, socket, state: IsCreated })
        }
    }

    /// Starts to listen: makes the queue into which the status hook will push events.
    #[inline]
    pub fn listen(self) -> (r: PendingListen<'x>)
        ensures
            r.interface_spec() == self.interface_spec(),
            r.socket_spec() == self,
    {
        PendingListen { socket: self, queue: new_event_queue() }
    }

    /// Starts to connect: makes the queue into which the status hook will push events.
    #[inline]
    pub fn connect(self) -> (r: PendingConnect<'x>)
        ensures
            r.interface_spec() == self.interface_spec(),
            r.socket_spec() == self,
    {
        PendingConnect { socket: self, queue: new_event_queue() }
    }
}

impl<'x> PendingListen<'x> {
    pub closed spec fn socket_spec(&self) -> GnsSocket<'x, IsCreated> {
        self.socket
    }

    pub closed spec fn queue_spec(&self) -> Box<EventQueue> {
        self.queue
    }

    pub open spec fn interface_spec(&self) -> usize {
        self.socket_spec().interface_spec()
    }

    #[inline]
    pub fn interface(&self) -> (r: usize)
        ensures
            r == self.interface_spec(),
    {
        self.socket.socket
    }

    /// The queue whose address the status hook receives as connection user data.
    #[inline]
    pub fn queue(&self) -> (r: &EventQueue)
        ensures
            *r == *self.queue_spec(),
    {
        &self.queue
    }

    /// Reads the handle that `CreateListenSocketIP` returned: the invalid handle fails
    /// the listen.
    #[inline]
    pub fn listen_socket_created(self, listen_socket: u32) -> (r: Result<PendingPollGroup<'x>, ()>)
        ensures
            r is Err <==> listen_socket == LISTEN_SOCKET_INVALID,
            r matches Ok(p) ==> p.socket_spec() == self.socket_spec() && p.queue_spec()
                == self.queue_spec() && p.listen_socket_spec() == GnsListenSocket(listen_socket),
    {
        if listen_socket == LISTEN_SOCKET_INVALID {
            Err(())
        } else {
            Ok(
                PendingPollGroup {
                    socket: self.socket,
                    queue: self.queue,
                    listen_socket: GnsListenSocket(listen_socket),
                },
            )
        }
    }
}

impl<'x> PendingPollGroup<'x> {
    pub closed spec fn socket_spec(&self) -> GnsSocket<'x, IsCreated> {
        self.socket
    }

    pub closed spec fn queue_spec(&self) -> Box<EventQueue> {
        self.queue
    }

    pub closed spec fn listen_socket_spec(&self) -> GnsListenSocket {
        self.listen_socket
    }

    #[inline]
    pub fn interface(&self) -> (r: usize)
        ensures
            r == self.socket_spec().interface_spec(),
    {
        self.socket.socket
    }

    /// Reads the handle that `CreatePollGroup` returned: the invalid handle fails the
    /// listen, any other one makes the socket a server.
    #[inline]
    pub fn poll_group_created(self, poll_group: u32) -> (r: Result<GnsSocket<'x, IsServer>, ()>)
        ensures
            r is Err <==> poll_group == POLL_GROUP_INVALID,
            r matches Ok(server) ==> {
                &&& server.interface_spec() == self.socket_spec().interface_spec()
                &&& server.utils_spec() == self.socket_spec().utils_spec()
                &&& server.global_spec() == self.socket_spec().global_spec()
                &&& server.state_spec().listen_socket_spec() == self.listen_socket_spec()
                &&& server.state_spec().poll_group_spec() == GnsPollGroup(poll_group)
                &&& server.state_spec().events() == self.queue_spec()
            },
    {
        if poll_group == POLL_GROUP_INVALID {
            Err(())
        } else {
            Ok(
                GnsSocket {
                    global: self.socket.global,
                    utils: self.socket.utils,
                    socket: self.socket.socket,
                    state: IsServer {
                        queue: self.queue,
                        listen_socket: self.listen_socket,
                        poll_group: GnsPollGroup(poll_group),
                    },
                },
            )
        }
    }
}

impl<'x> PendingConnect<'x> {
    pub closed spec fn socket_spec(&self) -> GnsSocket<'x, IsCreated> {
        self.socket
    }

    pub closed spec fn queue_spec(&self) -> Box<EventQueue> {
        self.queue
    }

    pub open spec fn interface_spec(&self) -> usize {
        self.socket_spec().interface_spec()
    }

    #[inline]
    pub fn interface(&self) -> (r: usize)
        ensures
            r == self.interface_spec(),
    {
        self.socket.socket
    }

    /// The queue whose address the status hook receives as connection user data.
    #[inline]
    pub fn queue(&self) -> (r: &EventQueue)
        ensures
            *r == *self.queue_spec(),
    {
        &self.queue
    }

    /// Reads the handle that `ConnectByIPAddress` returned: the invalid handle fails the
    /// connect, any other one makes the socket a client of that connection.
    #[inline]
    pub fn connected(self, connection: u32) -> (r: Result<GnsSocket<'x, IsClient>, ()>)
        ensures
            r is Err <==> connection == CONNECTION_INVALID,
            r matches Ok(client) ==> {
                &&& client.interface_spec() == self.socket_spec().interface_spec()
                &&& client.utils_spec() == self.socket_spec().utils_spec()
                &&& client.global_spec() == self.socket_spec().global_spec()
                &&& client.state_spec().connection_spec() == GnsConnection(connection)
                &&& client.state_spec().events() == self.queue_spec()
            },
    {
        if connection == CONNECTION_INVALID {
            Err(())
        } else {
            Ok(
                GnsSocket {
                    global: self.socket.global,
                    utils: self.socket.utils,
                    socket: self.socket.socket,
                    state: IsClient { queue: self.queue, connection: GnsConnection(connection) },
                },
            )
        }
    }
}

impl<'x> GnsSocket<'x, IsServer> {
    /// Reads what `AcceptConnection` reported: on `k_EResultOK` the connection must next
    /// be put into the server's poll group, otherwise the code is the answer.
    #[inline]
    pub fn accept_answer(&self, accepted: EResult) -> (r: GnsResult<GnsPollGroup>)
        ensures
            accepted.0 == RESULT_OK ==> r == Ok::<GnsPollGroup, EResult>(
                self.state_spec().poll_group_spec(),
            ),
            accepted.0 != RESULT_OK ==> r == Err::<GnsPollGroup, EResult>(accepted),
    {
        if accepted.is_ok() {
            Ok(self.state.poll_group)
        } else {
            Err(accepted)
        }
    }

    /// Reads what `SetConnectionPollGroup` reported: a refusal is `k_EResultInvalidState`.
    #[inline]
    pub fn poll_group_answer(&self, assigned: bool) -> (r: GnsResult<()>)
        ensures
            assigned ==> r == Ok::<(), EResult>(()),
            !assigned ==> r == Err::<(), EResult>(EResult(RESULT_INVALID_STATE)),
    {
        if !assigned {
            Err(EResult::invalid_state())
        } else {
            Ok(())
        }
    }
}

impl<'x> GnsSocket<'x, IsClient> {
    #[inline]
    pub fn connection(&self) -> (r: GnsConnection)
        ensures
            r == self.state_spec().connection_spec(),
    {
        self.state.connection
    }
}

} // verus!
