use vstd::prelude::*;
use vstd::utf8::encode_utf8;
use crate::connection::{ConnectionState, GnsConnection, GnsConnectionEvent};
use crate::message::{GnsNetworkMessage, ToSend, SEND_RELIABLE};
use crate::socket::GnsUtils;
use crate::text::{decimal, decimal_text, lemma_decimal_injective, same_text, text_bytes, trim, trimmed};

verus! {

/// Whether a connection in this state is gone: closed by the peer or lost locally.
pub open spec fn is_gone(state: ConnectionState) -> bool {
    state == ConnectionState::ClosedByPeer || state == ConnectionState::ProblemDetectedLocally
}

fn gone(state: ConnectionState) -> (r: bool)
    ensures
        r == is_gone(state),
{
    match state {
        ConnectionState::ClosedByPeer => true,
        ConnectionState::ProblemDetectedLocally => true,
        _ => false,
    }
}

fn starts_connecting(previous: ConnectionState, current: ConnectionState) -> (r: bool)
    ensures
        r == (previous == ConnectionState::NoConnection && current
            == ConnectionState::Connecting),
{
    match (previous, current) {
        (ConnectionState::NoConnection, ConnectionState::Connecting) => true,
        _ => false,
    }
}

fn finishes_connecting(previous: ConnectionState, current: ConnectionState) -> (r: bool)
    ensures
        r == (previous == ConnectionState::Connecting && current == ConnectionState::Connected),
{
    match (previous, current) {
        (ConnectionState::Connecting, ConnectionState::Connected) => true,
        _ => false,
    }
}

/// How the chat server answers a change of a connection's state.
#[derive(Copy, Clone, Debug, PartialEq, Eq, Structural)]
pub enum ServerReaction {
    /// A client is about to connect: accept it, and welcome it when that succeeds.
    Accept(GnsConnection),
    /// A client that was accepted finished connecting: nothing to do.
    Nothing,
    /// A client went away: announce it, forget it, close its connection.
    Leave(GnsConnection),
    /// Any other change: report it.
    Report { previous: ConnectionState, current: ConnectionState },
}

pub open spec fn server_reaction_spec(
    previous: ConnectionState,
    current: ConnectionState,
    connection: GnsConnection,
) -> ServerReaction {
    if previous == ConnectionState::NoConnection && current == ConnectionState::Connecting {
        ServerReaction::Accept(connection)
    } else if previous == ConnectionState::Connecting && current == ConnectionState::Connected {
        ServerReaction::Nothing
    } else if is_gone(current) {
        ServerReaction::Leave(connection)
    } else {
        ServerReaction::Report { previous, current }
    }
}

/// The chat server's answer to a connection event.
pub fn server_reaction(event: &GnsConnectionEvent) -> (r: ServerReaction)
    ensures
        r == server_reaction_spec(event.old_state, event.info.state, event.connection),
        event.old_state == ConnectionState::NoConnection && event.info.state
            == ConnectionState::Connecting ==> r == ServerReaction::Accept(event.connection),
        event.old_state == ConnectionState::Connecting && event.info.state
            == ConnectionState::Connected ==> r == ServerReaction::Nothing,
        event.info.state == ConnectionState::ClosedByPeer || event.info.state
            == ConnectionState::ProblemDetectedLocally ==> r == ServerReaction::Leave(
            event.connection,
        ),
{
    let previous = event.old_state();
    let current = event.info().state();
    if starts_connecting(previous, current) {
        ServerReaction::Accept(event.connection())
    } else if finishes_connecting(previous, current) {
        ServerReaction::Nothing
    } else if gone(current) {
        ServerReaction::Leave(event.connection())
    } else {
        ServerReaction::Report { previous, current }
    }
}

/// How the chat client answers a change of its connection's state.
#[derive(Copy, Clone, Debug, PartialEq, Eq, Structural)]
pub enum ClientReaction {
    /// The connection to the server is being made.
    Connecting,
    /// The connection to the server is made.
    Connected,
    /// The connection was closed or lost: the client stops.
    Lost,
    /// Any other change: report it.
    Report { previous: ConnectionState, current: ConnectionState },
}

pub open spec fn client_reaction_spec(previous: ConnectionState, current: ConnectionState) -> ClientReaction {
    if previous == ConnectionState::NoConnection && current == ConnectionState::Connecting {
        ClientReaction::Connecting
    } else if previous == ConnectionState::Connecting && current == ConnectionState::Connected {
        ClientReaction::Connected
    } else if is_gone(current) {
        ClientReaction::Lost
    } else {
        ClientReaction::Report { previous, current }
    }
}

/// The chat client's answer to a connection event.
pub fn client_reaction(event: &GnsConnectionEvent) -> (r: ClientReaction)
    ensures
        r == client_reaction_spec(event.old_state, event.info.state),
        event.old_state == ConnectionState::NoConnection && event.info.state
            == ConnectionState::Connecting ==> r == ClientReaction::Connecting,
        event.old_state == ConnectionState::Connecting && event.info.state
            == ConnectionState::Connected ==> r == ClientReaction::Connected,
        event.info.state == ConnectionState::ClosedByPeer || event.info.state
            == ConnectionState::ProblemDetectedLocally ==> r == ClientReaction::Lost,
{
    let previous = event.old_state();
    let current = event.info().state();
    if starts_connecting(previous, current) {
        ClientReaction::Connecting
    } else if finishes_connecting(previous, current) {
        ClientReaction::Connected
    } else if gone(current) {
        ClientReaction::Lost
    } else {
        ClientReaction::Report { previous, current }
    }
}

/// How the server answers each change, whatever the states involved: a new connection
/// is accepted, a finished connection needs nothing, a connection that the peer closed
/// or that was lost locally leaves (whatever state it was in before), and every other
/// change is reported with its two states.
pub proof fn lemma_server_reactions(
    previous: ConnectionState,
    current: ConnectionState,
    connection: GnsConnection,
)
    ensures
        previous == ConnectionState::NoConnection && current == ConnectionState::Connecting
            ==> server_reaction_spec(previous, current, connection) == ServerReaction::Accept(
            connection,
        ),
        previous == ConnectionState::Connecting && current == ConnectionState::Connected
            ==> server_reaction_spec(previous, current, connection) == ServerReaction::Nothing,
        current == ConnectionState::ClosedByPeer ==> server_reaction_spec(
            previous,
            current,
            connection,
        ) == ServerReaction::Leave(connection),
        current == ConnectionState::ProblemDetectedLocally ==> server_reaction_spec(
            previous,
            current,
            connection,
        ) == ServerReaction::Leave(connection),
        !(previous == ConnectionState::NoConnection && current == ConnectionState::Connecting)
            && !(previous == ConnectionState::Connecting && current == ConnectionState::Connected)
            && current != ConnectionState::ClosedByPeer && current
            != ConnectionState::ProblemDetectedLocally ==> server_reaction_spec(
            previous,
            current,
            connection,
        ) == (ServerReaction::Report { previous, current }),
{
}

/// How the client answers each change, whatever the states involved: it announces the
/// start and the end of connecting, it stops when its connection was closed by the
/// server or lost locally (whatever state it was in before), and it reports every
/// other change with its two states.
pub proof fn lemma_client_reactions(previous: ConnectionState, current: ConnectionState)
    ensures
        previous == ConnectionState::NoConnection && current == ConnectionState::Connecting
            ==> client_reaction_spec(previous, current) == ClientReaction::Connecting,
        previous == ConnectionState::Connecting && current == ConnectionState::Connected
            ==> client_reaction_spec(previous, current) == ClientReaction::Connected,
        current == ConnectionState::ClosedByPeer ==> client_reaction_spec(previous, current)
            == ClientReaction::Lost,
        current == ConnectionState::ProblemDetectedLocally ==> client_reaction_spec(
            previous,
            current,
        ) == ClientReaction::Lost,
        !(previous == ConnectionState::NoConnection && current == ConnectionState::Connecting)
            && !(previous == ConnectionState::Connecting && current == ConnectionState::Connected)
            && current != ConnectionState::ClosedByPeer && current
            != ConnectionState::ProblemDetectedLocally ==> client_reaction_spec(previous, current)
            == (ClientReaction::Report { previous, current }),
{
}

/// The line that the chat shows for `content` said by `title`: `[title]: content`.
pub open spec fn chat_line_spec(title: Seq<char>, content: Seq<char>) -> Seq<char> {
    "["@ + title + "]: "@ + content
}

/// Builds `[title]: content`.
pub fn chat_line(title: &str, content: &str) -> (r: String)
    ensures
        r@ == chat_line_spec(title@, content@),
{
    let mut line = String::from_str("[");
    line.append(title);
    line.append("]: ");
    line.append(content);
    line
}

/// The name under which the server speaks.
pub open spec fn server_name() -> Seq<char> {
    "Server"@
}

/// What the server says when client number `nonce` joins.
pub open spec fn welcome_text(nonce: nat) -> Seq<char> {
    chat_line_spec(server_name(), "A new user joined us, weclome "@ + decimal(nonce))
}

/// What the server says when the client called `nickname` goes.
pub open spec fn farewell_text(nickname: Seq<char>) -> Seq<char> {
    chat_line_spec(server_name(), "["@ + nickname + "] lost faith."@)
}

/// A message to send reliably to `connection`, carrying the UTF-8 bytes of `text`.
pub fn chat_message(utils: &GnsUtils, connection: GnsConnection, text: &String) -> (r:
    GnsNetworkMessage<ToSend>)
    ensures
        r@.connection == connection,
        r@.flags == SEND_RELIABLE,
        r@.payload == encode_utf8(text@),
        r@.lane == 0,
        r@.user_data == 0,
{
    utils.allocate_message(connection, SEND_RELIABLE, text_bytes(text))
}

/// The same line, to be sent to each of the recipients.
pub struct Broadcast {
    pub recipients: Vec<GnsConnection>,
    pub text: String,
}

impl Broadcast {
    /// One reliable message per recipient, in the order of the recipients.
    pub fn messages(&self, utils: &GnsUtils) -> (r: Vec<GnsNetworkMessage<ToSend>>)
        ensures
            r@.len() == self.recipients@.len(),
            forall|i: int|
                0 <= i < r@.len() ==> {
                    &&& (#[trigger] r@[i])@.connection == self.recipients@[i]
                    &&& r@[i]@.flags == SEND_RELIABLE
                    &&& r@[i]@.payload == encode_utf8(self.text@)
                    &&& r@[i]@.lane == 0
                    &&& r@[i]@.user_data == 0
                },
    {
        let mut messages: Vec<GnsNetworkMessage<ToSend>> = Vec::new();
        let mut i: usize = 0;
        while i < self.recipients.len()
            invariant
                i <= self.recipients@.len(),
                messages@.len() == i,
                forall|k: int|
                    0 <= k < i ==> {
                        &&& (#[trigger] messages@[k])@.connection == self.recipients@[k]
                        &&& messages@[k]@.flags == SEND_RELIABLE
                        &&& messages@[k]@.payload == encode_utf8(self.text@)
                        &&& messages@[k]@.lane == 0
                        &&& messages@[k]@.user_data == 0
                    },
            decreases self.recipients@.len() - i,
        {
            messages.push(chat_message(utils, self.recipients[i], &self.text));
            i = i + 1;
        }
        messages
    }
}

/// Whether the statistics of the clients are due, `elapsed_secs` seconds after the last
/// report: every ten seconds.
pub fn stats_due(elapsed_secs: u64) -> (r: bool)
    ensures
        r == (elapsed_secs > 10),
{
    elapsed_secs > 10
}

/// What the chat client does with a line that its user typed.
pub enum InputAction {
    /// The user typed `quit`: the client stops.
    Quit,
    /// Any other line is sent to the server, trimmed.
    Send(String),
}

/// Reads a line that is already trimmed.
pub fn input_action(trimmed_line: &str) -> (r: InputAction)
    ensures
        trimmed_line@ == "quit"@ ==> r is Quit,
        trimmed_line@ != "quit"@ ==> (r matches InputAction::Send(text) && text@ == trimmed_line@),
{
    if same_text(trimmed_line, "quit") {
        InputAction::Quit
    } else {
        InputAction::Send(trimmed_line.to_owned())
    }
}

/// Reads a line that the user typed: trims it, then stops on `quit` or sends the rest.
pub fn on_input(line: &str) -> (r: InputAction)
    ensures
        trimmed(line@) == "quit"@ ==> r is Quit,
        trimmed(line@) != "quit"@ ==> (r matches InputAction::Send(text) && text@ == trimmed(
            line@,
        )),
{
    input_action(trim(line))
}

/// Whether connection `c` has an entry in the roster.
pub open spec fn roster_has(roster: Seq<(GnsConnection, String)>, c: GnsConnection) -> bool {
    exists|i: int| 0 <= i < roster.len() && (#[trigger] roster[i]).0 == c
}

spec fn roster_index(roster: Seq<(GnsConnection, String)>, c: GnsConnection) -> int {
    choose|i: int| 0 <= i < roster.len() && (#[trigger] roster[i]).0 == c
}

spec fn distinct_keys(roster: Seq<(GnsConnection, String)>) -> bool {
    forall|i: int, j: int|
        0 <= i < roster.len() && 0 <= j < roster.len() && i != j ==> (#[trigger] roster[i]).0
            != (#[trigger] roster[j]).0
}

spec fn distinct_names(roster: Seq<(GnsConnection, String)>) -> bool {
    forall|i: int, j: int|
        0 <= i < roster.len() && 0 <= j < roster.len() && i != j ==> (#[trigger] roster[i]).1@
            != (#[trigger] roster[j]).1@
}

spec fn numbered_below(roster: Seq<(GnsConnection, String)>, bound: int) -> bool {
    forall|i: int|
        0 <= i < roster.len() ==> exists|k: nat| k < bound && #[trigger] decimal(k) == (
        #[trigger] roster[i]).1@
}

spec fn roster_map(roster: Seq<(GnsConnection, String)>) -> Map<GnsConnection, Seq<char>> {
    Map::new(|c: GnsConnection| roster_has(roster, c), |c: GnsConnection| roster[roster_index(roster, c)].1@)
}

proof fn lemma_roster_index(roster: Seq<(GnsConnection, String)>, c: GnsConnection, i: int)
    requires
        distinct_keys(roster),
        0 <= i < roster.len(),
        roster[i].0 == c,
    ensures
        roster_has(roster, c),
        roster_index(roster, c) == i,
{
    assert(roster_has(roster, c));
    let j = roster_index(roster, c);
    assert(0 <= j < roster.len() && roster[j].0 == c);
}

/// The chat server: the nickname of each connected client, and the number from which
/// the next client's nickname is made.
pub struct ChatServer {
    clients: Vec<(GnsConnection, String)>,
    nonce: i32,
}

impl ChatServer {
    /// The connected clients and their nicknames.
    pub closed spec fn nicknames(&self) -> Map<GnsConnection, Seq<char>> {
        roster_map(self.clients@)
    }

    /// The number whose decimal notation the next client gets as its nickname.
    pub closed spec fn next_number(&self) -> nat {
        self.nonce as nat
    }

    /// Each client appears once, each nickname is the notation of a number given out
    /// before, and no two clients share a nickname.
    pub closed spec fn well_formed(&self) -> bool {
        &&& 0 <= self.nonce
        &&& distinct_keys(self.clients@)
        &&& distinct_names(self.clients@)
        &&& numbered_below(self.clients@, self.nonce as int)
    }

    /// A server without clients, whose first client will be called `0`.
    pub fn new() -> (r: ChatServer)
        ensures
            r.well_formed(),
            r.nicknames() == Map::<GnsConnection, Seq<char>>::empty(),
            r.next_number() == 0,
    {
        let r = ChatServer { clients: Vec::new(), nonce: 0 };
        assert(r.nicknames() =~= Map::<GnsConnection, Seq<char>>::empty());
        r
    }

    /// The number from which the next client's nickname will be made.
    pub fn next_nickname_number(&self) -> (r: i32)
        ensures
            self.well_formed() ==> r as int == self.next_number(),
    {
        self.nonce
    }

    fn position(&self, c: GnsConnection) -> (r: Option<usize>)
        requires
            distinct_keys(self.clients@),
        ensures
            r is None <==> !roster_has(self.clients@, c),
            r matches Some(i) ==> i < self.clients@.len() && self.clients@[i as int].0 == c
                && roster_index(self.clients@, c) == i,
    {
        let mut i: usize = 0;
        while i < self.clients.len()
            invariant
                i <= self.clients@.len(),
                distinct_keys(self.clients@),
                forall|k: int| 0 <= k < i ==> (#[trigger] self.clients@[k]).0 != c,
            decreases self.clients@.len() - i,
        {
            if self.clients[i].0 == c {
                proof {
                    lemma_roster_index(self.clients@, c, i as int);
                }
                return Some(i);
            }
            i = i + 1;
        }
        None
    }

    /// The nickname of client `c`, if it is connected.
    pub fn nickname(&self, c: GnsConnection) -> (r: Option<&String>)
        requires
            self.well_formed(),
        ensures
            r is Some <==> self.nicknames().dom().contains(c),
            r matches Some(name) ==> name@ == self.nicknames()[c],
    {
        match self.position(c) {
            Some(i) => Some(&self.clients[i].1),
            None => None,
        }
    }

    /// The connected clients, each once.
    pub fn connections(&self) -> (r: Vec<GnsConnection>)
        requires
            self.well_formed(),
        ensures
            r@.no_duplicates(),
            forall|c: GnsConnection| r@.contains(c) <==> self.nicknames().dom().contains(c),
    {
        let mut r: Vec<GnsConnection> = Vec::new();
        let mut i: usize = 0;
        while i < self.clients.len()
            invariant
                i <= self.clients@.len(),
                distinct_keys(self.clients@),
                r@.len() == i,
                forall|k: int| 0 <= k < i ==> r@[k] == (#[trigger] self.clients@[k]).0,
            decreases self.clients@.len() - i,
        {
            r.push(self.clients[i].0);
            i = i + 1;
        }
        assert forall|c: GnsConnection| r@.contains(c) <==> self.nicknames().dom().contains(c) by {
            if r@.contains(c) {
                let k = choose|k: int| 0 <= k < r@.len() && r@[k] == c;
                assert(self.clients@[k].0 == c);
            }
            if self.nicknames().dom().contains(c) {
                let k = roster_index(self.clients@, c);
                assert(r@[k] == c);
            }
        }
        assert forall|a: int, b: int| 0 <= a < r@.len() && 0 <= b < r@.len() && a != b implies r@[a]
            != r@[b] by {
            assert(self.clients@[a].0 != self.clients@[b].0);
        }
        r
    }

    /// Welcomes client `c`, whose connection was accepted: it gets the next number as its
    /// nickname, and every client, itself included, is told that it joined.
    pub fn welcome(&mut self, c: GnsConnection) -> (r: Broadcast)
        requires
            old(self).well_formed(),
            old(self).next_number() < i32::MAX,
        ensures
            final(self).well_formed(),
            final(self).nicknames() == old(self).nicknames().insert(
                c,
                decimal(old(self).next_number()),
            ),
            final(self).next_number() == old(self).next_number() + 1,
            r.text@ == welcome_text(old(self).next_number()),
            r.recipients@.no_duplicates(),
            forall|d: GnsConnection|
                r.recipients@.contains(d) <==> final(self).nicknames().dom().contains(d),
    {
        let ghost before = self.clients@;
        let ghost number = self.nonce as nat;
        let nickname = decimal_text(self.nonce as u32);
        let mut greeting = String::from_str("A new user joined us, weclome ");
        greeting.append(decimal_text(self.nonce as u32).as_str());
        let text = chat_line("Server", greeting.as_str());
        let ghost mut slot: int = 0;
        match self.position(c) {
            Some(i) => {
                self.clients.set(i, (c, nickname));
                proof {
                    slot = i as int;
                }
            },
            None => {
                proof {
                    slot = before.len() as int;
                }
                self.clients.push((c, nickname));
            },
        }
        let ghost after = self.clients@;
        assert(0 <= slot < after.len() && after[slot].0 == c);
        proof {
            assert forall|i: int, j: int|
                0 <= i < after.len() && 0 <= j < after.len() && i != j implies (#[trigger] after[i]).0
                != (#[trigger] after[j]).0 by {
                if i < before.len() && j < before.len() && after[i] == before[i] && after[j] == before[j] {
                    assert(before[i].0 != before[j].0);
                }
            }
            assert forall|i: int| 0 <= i < after.len() && after[i].0 != c implies #[trigger] after[i] == before[i] by {
                if i == before.len() {
                    assert(after[i].0 == c);
                }
            }
            assert forall|i: int| 0 <= i < after.len() && after[i].0 == c implies (#[trigger] after[i]).1@ == decimal(number) by {
            }
            assert forall|i: int, j: int|
                0 <= i < after.len() && 0 <= j < after.len() && i != j implies (#[trigger] after[i]).1@
                != (#[trigger] after[j]).1@ by {
                if after[i].0 != c && after[j].0 != c {
                    assert(before[i].1@ != before[j].1@);
                } else if after[i].0 == c {
                    let k = choose|k: nat| k < number && #[trigger] decimal(k) == before[j].1@;
                    if decimal(number) == decimal(k) {
                        lemma_decimal_injective(number, k);
                    }
                } else {
                    let k = choose|k: nat| k < number && #[trigger] decimal(k) == before[i].1@;
                    if decimal(number) == decimal(k) {
                        lemma_decimal_injective(number, k);
                    }
                }
            }
            assert forall|i: int| 0 <= i < after.len() implies exists|k: nat|
                k < number + 1 && #[trigger] decimal(k) == (#[trigger] after[i]).1@ by {
                if after[i].0 == c {
                    assert(decimal(number) == after[i].1@);
                } else {
                    let k = choose|k: nat| k < number && #[trigger] decimal(k) == before[i].1@;
                    assert(decimal(k) == after[i].1@);
                }
            }
            let expected = roster_map(before).insert(c, decimal(number));
            assert forall|d: GnsConnection| #[trigger] roster_map(after).dom().contains(d)
                <==> expected.dom().contains(d) by {
                if d != c && roster_has(before, d) {
                    let j = roster_index(before, d);
                    assert(after[j] == before[j]);
                }
                if d != c && roster_has(after, d) {
                    let j = roster_index(after, d);
                    assert(after[j] == before[j]);
                }
                if d == c {
                    assert(after[slot].0 == c);
                }
            }
            assert forall|d: GnsConnection| #[trigger] roster_map(after).dom().contains(d)
                implies roster_map(after)[d] == expected[d] by {
                let j = roster_index(after, d);
                lemma_roster_index(after, d, j);
                if d != c {
                    assert(after[j] == before[j]);
                    lemma_roster_index(before, d, j);
                }
            }
            assert(roster_map(after) =~= expected);
        }
        self.nonce = self.nonce + 1;
        let recipients = self.connections();
        Broadcast { recipients, text }
    }

    /// Says goodbye to client `c`, which went away: every client, itself included, is
    /// told, then the server forgets it. The caller closes the connection.
    pub fn farewell(&mut self, c: GnsConnection) -> (r: Broadcast)
        requires
            old(self).well_formed(),
            old(self).nicknames().dom().contains(c),
        ensures
            final(self).well_formed(),
            final(self).nicknames() == old(self).nicknames().remove(c),
            final(self).next_number() == old(self).next_number(),
            r.text@ == farewell_text(old(self).nicknames()[c]),
            r.recipients@.no_duplicates(),
            forall|d: GnsConnection|
                r.recipients@.contains(d) <==> old(self).nicknames().dom().contains(d),
    {
        let recipients = self.connections();
        let i = self.position(c).unwrap();
        let mut content = String::from_str("[");
        content.append(self.clients[i].1.as_str());
        content.append("] lost faith.");
        let text = chat_line("Server", content.as_str());
        let ghost before = self.clients@;
        let _ = self.clients.remove(i);
        let ghost after = self.clients@;
        proof {
            let gap = i as int;
            assert forall|k: int| 0 <= k < after.len() implies #[trigger] after[k] == before[
                if k < gap { k } else { k + 1 }] by {}
            assert forall|a: int, b: int|
                0 <= a < after.len() && 0 <= b < after.len() && a != b implies (#[trigger] after[a]).0
                != (#[trigger] after[b]).0 && after[a].1@ != after[b].1@ by {
                let a0 = if a < gap { a } else { a + 1 };
                let b0 = if b < gap { b } else { b + 1 };
                assert(after[a] == before[a0] && after[b] == before[b0]);
                assert(before[a0].0 != before[b0].0);
                assert(before[a0].1@ != before[b0].1@);
            }
            assert forall|k: int| 0 <= k < after.len() implies exists|n: nat|
                n < self.nonce && #[trigger] decimal(n) == (#[trigger] after[k]).1@ by {
                let k0 = if k < gap { k } else { k + 1 };
                assert(after[k] == before[k0]);
                let n = choose|n: nat| n < self.nonce && #[trigger] decimal(n) == before[k0].1@;
                assert(decimal(n) == after[k].1@);
            }
            let expected = roster_map(before).remove(c);
            assert forall|d: GnsConnection| #[trigger] roster_map(after).dom().contains(d)
                <==> expected.dom().contains(d) by {
                if roster_has(after, d) {
                    let k = roster_index(after, d);
                    let k0 = if k < gap { k } else { k + 1 };
                    assert(after[k] == before[k0]);
                    assert(before[k0].0 != before[gap].0);
                }
                if d != c && roster_has(before, d) {
                    let j = roster_index(before, d);
                    assert(j != gap);
                    let j1 = if j < gap { j } else { j - 1 };
                    assert(after[j1] == before[j]);
                }
            }
            assert forall|d: GnsConnection| #[trigger] roster_map(after).dom().contains(d)
                implies roster_map(after)[d] == expected[d] by {
                let k = roster_index(after, d);
                let k0 = if k < gap { k } else { k + 1 };
                assert(after[k] == before[k0]);
                lemma_roster_index(before, d, k0);
            }
            assert(roster_map(after) =~= expected);
        }
        Broadcast { recipients, text }
    }

    /// Passes on what client `sender` said: every client, the sender included, gets it
    /// under the sender's nickname.
    pub fn relay(&self, sender: GnsConnection, content: &str) -> (r: Broadcast)
        requires
            self.well_formed(),
            self.nicknames().dom().contains(sender),
        ensures
            r.text@ == chat_line_spec(self.nicknames()[sender], content@),
            r.recipients@.no_duplicates(),
            forall|d: GnsConnection|
                r.recipients@.contains(d) <==> self.nicknames().dom().contains(d),
    {
        let name = self.nickname(sender).unwrap();
        let text = chat_line(name.as_str(), content);
        let recipients = self.connections();
        Broadcast { recipients, text }
    }
}

/// No two connected clients of a well-formed server share a nickname.
pub proof fn lemma_nicknames_distinct(server: ChatServer, a: GnsConnection, b: GnsConnection)
    requires
        server.well_formed(),
        server.nicknames().dom().contains(a),
        server.nicknames().dom().contains(b),
        a != b,
    ensures
        server.nicknames()[a] != server.nicknames()[b],
{
    let s = server.clients@;
    let i = roster_index(s, a);
    let j = roster_index(s, b);
    assert(s[i].0 == a && s[j].0 == b);
}

/// A client that joins and then leaves leaves the nicknames as they were, when it was
/// not connected before.
pub proof fn lemma_join_then_leave(
    before: ChatServer,
    joined: ChatServer,
    left: ChatServer,
    c: GnsConnection,
)
    requires
        !before.nicknames().dom().contains(c),
        joined.nicknames() == before.nicknames().insert(c, decimal(before.next_number())),
        left.nicknames() == joined.nicknames().remove(c),
    ensures
        left.nicknames() == before.nicknames(),
{
    assert(left.nicknames() =~= before.nicknames());
}

} // verus!
