use vstd::prelude::*;
use std::marker::PhantomData;
use crate::connection::GnsConnection;

verus! {

/// The number that the library gives a sent message.
pub type GnsMessageNumber = u64;

pub type Priority = u32;

pub type Weight = u16;

/// A lane of a connection: its priority and its weight.
pub type GnsLane = (Priority, Weight);

pub type GnsLaneId = u16;

/// The send flag `k_nSteamNetworkingSend_Reliable`.
pub const SEND_RELIABLE: i32 = 8;

/// Whether a message that is dropped must be handed back to the library.
pub trait MayDrop {
    const MUST_DROP: bool;
}

/// A message that the program builds and sends.
pub struct ToSend(());

impl MayDrop for ToSend {
    const MUST_DROP: bool = false;
}

/// A message that the library received and hands out.
pub struct ToReceive(());

impl MayDrop for ToReceive {
    const MUST_DROP: bool = true;
}

/// The fields of a message (`SteamNetworkingMessage_t`) that the binding reads and writes.
pub struct MessageView {
    /// `m_conn`.
    pub connection: GnsConnection,
    /// `m_nConnUserData`.
    pub connection_user_data: i64,
    /// `m_nMessageNumber`.
    pub message_number: i64,
    /// `m_nFlags`.
    pub flags: i32,
    /// `m_nUserData`.
    pub user_data: i64,
    /// `m_idxLane`.
    pub lane: u16,
    /// The `m_cbSize` bytes at `m_pData`.
    pub payload: Seq<u8>,
}

impl MessageView {
    pub open spec fn with_connection(self, connection: GnsConnection) -> MessageView {
        MessageView { connection, ..self }
    }

    pub open spec fn with_lane(self, lane: u16) -> MessageView {
        MessageView { lane, ..self }
    }

    pub open spec fn with_flags(self, flags: i32) -> MessageView {
        MessageView { flags, ..self }
    }

    pub open spec fn with_user_data(self, user_data: i64) -> MessageView {
        MessageView { user_data, ..self }
    }

    /// The payload buffer keeps its size; its first bytes become `bytes`.
    pub open spec fn with_payload(self, bytes: Seq<u8>) -> MessageView {
        MessageView { payload: bytes + self.payload.skip(bytes.len() as int), ..self }
    }
}

/// What a setter writes, the matching getter reads back, and the other fields stay as
/// they were; a payload keeps its size, and its first bytes are the ones written.
pub proof fn lemma_setters_read_back(
    v: MessageView,
    connection: GnsConnection,
    lane: u16,
    flags: i32,
    user_data: i64,
    bytes: Seq<u8>,
)
    requires
        bytes.len() <= v.payload.len(),
    ensures
        v.with_connection(connection).connection == connection,
        v.with_connection(connection).with_connection(v.connection) == v,
        v.with_lane(lane).lane == lane,
        v.with_lane(lane).with_lane(v.lane) == v,
        v.with_flags(flags).flags == flags,
        v.with_flags(flags).with_flags(v.flags) == v,
        v.with_user_data(user_data).user_data == user_data,
        v.with_user_data(user_data).with_user_data(v.user_data) == v,
        v.with_payload(bytes).payload.len() == v.payload.len(),
        v.with_payload(bytes).payload.take(bytes.len() as int) == bytes,
        v.with_payload(bytes).with_payload(v.payload.take(bytes.len() as int)) == v,
{
    assert(v.with_payload(bytes).payload.take(bytes.len() as int) =~= bytes);
    assert(v.with_payload(bytes).with_payload(v.payload.take(bytes.len() as int)).payload
        =~= v.payload);
}

/// A message of the library, to send (`ToSend`) or received (`ToReceive`).
pub struct GnsNetworkMessage<T: MayDrop> {
    connection: GnsConnection,
    connection_user_data: i64,
    message_number: i64,
    flags: i32,
    user_data: i64,
    lane: u16,
    payload: Vec<u8>,
    kind: PhantomData<T>,
}

impl<T: MayDrop> View for GnsNetworkMessage<T> {
    type V = MessageView;

    closed spec fn view(&self) -> MessageView {
        MessageView {
            connection: self.connection,
            connection_user_data: self.connection_user_data,
            message_number: self.message_number,
            flags: self.flags,
            user_data: self.user_data,
            lane: self.lane,
            payload: self.payload@,
        }
    }
}

impl<T: MayDrop> GnsNetworkMessage<T> {
    #[inline]
    pub fn payload(&self) -> (r: &[u8])
        ensures
            r@ == self@.payload,
    {
        self.payload.as_slice()
    }

    #[inline]
    pub fn message_number(&self) -> (r: u64)
        ensures
            r == self@.message_number as u64,
    {
        self.message_number as u64
    }

    #[inline]
    pub fn lane(&self) -> (r: GnsLaneId)
        ensures
            r == self@.lane,
    {
        self.lane
    }

    #[inline]
    pub fn flags(&self) -> (r: u32)
        ensures
            r == self@.flags as u32,
    {
        self.flags as u32
    }

    #[inline]
    pub fn user_data(&self) -> (r: u64)
        ensures
            r == self@.user_data as u64,
    {
        self.user_data as u64
    }

    #[inline]
    pub fn connection(&self) -> (r: GnsConnection)
        ensures
            r == self@.connection,
    {
        self.connection
    }

    pub fn connection_user_data(&self) -> (r: u64)
        ensures
            r == self@.connection_user_data as u64,
    {
        self.connection_user_data as u64
    }
}

impl GnsNetworkMessage<ToReceive> {
    /// A message as the library delivered it.
    pub fn received(
        connection: GnsConnection,
        connection_user_data: i64,
        message_number: i64,
        flags: i32,
        user_data: i64,
        lane: u16,
        payload: Vec<u8>,
    ) -> (r: Self)
        ensures
            r@ == (MessageView {
                connection,
                connection_user_data,
                message_number,
                flags,
                user_data,
                lane,
                payload: payload@,
            }),
    {
        GnsNetworkMessage {
            connection,
            connection_user_data,
            message_number,
            flags,
            user_data,
            lane,
            payload,
            kind: PhantomData,
        }
    }
}

impl GnsNetworkMessage<ToSend> {
    /// A message as the library allocates it for `size` bytes: every field cleared,
    /// a payload buffer of `size` zero bytes.
    pub(crate) fn allocated(size: usize) -> (r: Self)
        ensures
            r@ == allocated_view(size as nat),
    {
        let mut payload: Vec<u8> = Vec::new();
        let mut i: usize = 0;
        while i < size
            invariant
                i <= size,
                payload@ == Seq::new(i as nat, |_k: int| 0u8),
            decreases size - i,
        {
            payload.push(0u8);
            i = i + 1;
        }
        GnsNetworkMessage {
            connection: GnsConnection(0),
            connection_user_data: 0,
            message_number: 0,
            flags: 0,
            user_data: 0,
            lane: 0,
            payload,
            kind: PhantomData,
        }
    }

    /// Fills a freshly allocated message: its flags, its payload and its connection.
    #[inline]
    pub(crate) fn new(self, conn: GnsConnection, flags: i32, payload: &[u8]) -> (r: Self)
        requires
            payload@.len() <= self@.payload.len(),
        ensures
            r@ == self@.with_flags(flags).with_payload(payload@).with_connection(conn),
    {
        self.set_flags(flags).set_payload(payload).set_connection(conn)
    }

    #[inline]
    pub fn set_connection(self, conn: GnsConnection) -> (r: Self)
        ensures
            r@ == self@.with_connection(conn),
    {
        GnsNetworkMessage { connection: conn, ..self }
    }

    /// Copies `payload` over the first bytes of the message's buffer.
    #[inline]
    pub fn set_payload(self, payload: &[u8]) -> (r: Self)
        requires
            payload@.len() <= self@.payload.len(),
        ensures
            r@ == self@.with_payload(payload@),
    {
        let mut message = self;
        let mut i: usize = 0;
        while i < payload.len()
            invariant
                i <= payload@.len(),
                payload@.len() <= self.payload@.len(),
                message.payload@.len() == self.payload@.len(),
                forall|k: int| 0 <= k < i ==> message.payload@[k] == payload@[k],
                forall|k: int| i <= k < self.payload@.len() ==> message.payload@[k] == self.payload@[k],
                message.connection == self.connection,
                message.connection_user_data == self.connection_user_data,
                message.message_number == self.message_number,
                message.flags == self.flags,
                message.user_data == self.user_data,
                message.lane == self.lane,
            decreases payload@.len() - i,
        {
            message.payload.set(i, payload[i]);
            i = i + 1;
        }
        assert(message.payload@ =~= payload@ + self.payload@.skip(payload@.len() as int));
        message
    }

    #[inline]
    pub fn set_lane(self, lane: u16) -> (r: Self)
        ensures
            r@ == self@.with_lane(lane),
    {
        GnsNetworkMessage { lane, ..self }
    }

    #[inline]
    pub fn set_flags(self, flags: i32) -> (r: Self)
        ensures
            r@ == self@.with_flags(flags),
    {
        GnsNetworkMessage { flags, ..self }
    }

    #[inline]
    pub fn set_user_data(self, userdata: u64) -> (r: Self)
        ensures
            r@ == self@.with_user_data(userdata as i64),
    {
        GnsNetworkMessage { user_data: userdata as i64, ..self }
    }
}

/// The view of a message freshly allocated for `size` bytes.
pub open spec fn allocated_view(size: nat) -> MessageView {
    MessageView {
        connection: GnsConnection(0),
        connection_user_data: 0,
        message_number: 0,
        flags: 0,
        user_data: 0,
        lane: 0,
        payload: Seq::new(size, |_k: int| 0u8),
    }
}

/// Splits lanes into the priority table and the weight table that
/// `ConfigureConnectionLanes` takes.
pub fn unzip_lanes(lanes: &[GnsLane]) -> (r: (Vec<Priority>, Vec<Weight>))
    ensures
        r.0@.len() == lanes@.len(),
        r.1@.len() == lanes@.len(),
        forall|i: int| 0 <= i < lanes@.len() ==> (#[trigger] lanes@[i]) == (r.0@[i], r.1@[i]),
{
    let mut priorities: Vec<Priority> = Vec::new();
    let mut weights: Vec<Weight> = Vec::new();
    let mut i: usize = 0;
    while i < lanes.len()
        invariant
            i <= lanes@.len(),
            priorities@.len() == i,
            weights@.len() == i,
            forall|k: int| 0 <= k < i ==> (#[trigger] lanes@[k]) == (priorities@[k], weights@[k]),
        decreases lanes@.len() - i,
    {
        let (priority, weight) = lanes[i];
        priorities.push(priority);
        weights.push(weight);
        i = i + 1;
    }
    (priorities, weights)
}

} // verus!
