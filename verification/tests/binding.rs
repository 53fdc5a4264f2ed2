use gns::chat::{
    chat_line, client_reaction, input_action, on_input, server_reaction, stats_due, ChatServer,
    ClientReaction, InputAction, ServerReaction,
};
use gns::text::{decimal_text, same_text, utf8_text};
use gns::{
    lane_status_buffer, poll_step, read_connection_info, received_message_count, read_real_time_status, read_send_results,
    unzip_lanes, ConnectionState, EResult, GnsConnection, GnsConnectionEvent, GnsConnectionInfo,
    GnsConnectionRealTimeLaneStatus, GnsConnectionRealTimeStatus, GnsDroppable, GnsError,
    GnsGlobal, GnsListenSocket, GnsNetworkMessage, GnsPollGroup, GnsResult, GnsSocket, GnsUtils,
    IsReady, MayDrop, ReceiveSource, Teardown, ToReceive, ToSend, SEND_RELIABLE,
};

fn global() -> GnsGlobal {
    match GnsGlobal::get(true) {
        Ok(init) => match init.finish(true, String::new()) {
            Ok(global) => global,
            Err(_) => panic!("initialisation reported a failure"),
        },
        Err(_) => panic!("the slot was refused"),
    }
}

fn info(state: ConnectionState) -> GnsConnectionInfo {
    GnsConnectionInfo {
        state,
        end_reason: 0,
        remote_ipv6: [0; 16],
        remote_port: 0,
    }
}

fn event(connection: u32, old_state: ConnectionState, state: ConnectionState) -> GnsConnectionEvent {
    GnsConnectionEvent { connection: GnsConnection(connection), info: info(state), old_state }
}

#[test]
fn ok_code_reads_as_success() {
    assert_eq!(GnsError(EResult(1)).into_result(), Ok(()));
}

#[test]
fn other_codes_read_as_errors() {
    assert_eq!(GnsError(EResult(11)).into_result(), Err(EResult(11)));
    assert_eq!(GnsError(EResult(2)).into_result(), Err(EResult(2)));
    assert_eq!(GnsError(EResult(0)).into_result(), Err(EResult(0)));
}

#[test]
fn from_agrees_with_into_result() {
    for code in [0u32, 1, 2, 11, 100] {
        let via_from: GnsResult<()> = GnsError(EResult(code)).into();
        assert_eq!(via_from, GnsError(EResult(code)).into_result());
    }
}

#[test]
fn global_refused_when_already_held() {
    match GnsGlobal::get(false) {
        Ok(_) => panic!("a second handle was granted"),
        Err(message) => assert_eq!(
            message,
            "Only one handle of GnsGlobal must be held by a program. If the value is dropped, another handle might be created."
        ),
    }
}

#[test]
fn global_initialisation_failure_carries_its_text() {
    let init = match GnsGlobal::get(true) {
        Ok(init) => init,
        Err(_) => panic!("the slot was refused"),
    };
    match init.finish(false, "no network".to_string()) {
        Ok(_) => panic!("a failed initialisation gave a handle"),
        Err(message) => assert_eq!(message, "no network"),
    }
}

#[test]
fn allocated_message_reads_back() {
    let utils = GnsUtils::new(0x1000).unwrap();
    let message = utils.allocate_message(GnsConnection(7), SEND_RELIABLE, b"hello");
    assert_eq!(message.payload(), b"hello");
    assert_eq!(message.connection(), GnsConnection(7));
    assert_eq!(message.flags(), 8);
    assert_eq!(message.lane(), 0);
    assert_eq!(message.user_data(), 0);
    assert_eq!(message.message_number(), 0);
    assert_eq!(message.connection_user_data(), 0);
}

#[test]
fn setters_change_one_field_each() {
    let utils = GnsUtils::new(0x1000).unwrap();
    let message = utils
        .allocate_message(GnsConnection(1), 0, b"abc")
        .set_lane(3)
        .set_user_data(u64::MAX)
        .set_flags(-1)
        .set_connection(GnsConnection(9));
    assert_eq!(message.lane(), 3);
    assert_eq!(message.user_data(), u64::MAX);
    assert_eq!(message.flags(), u32::MAX);
    assert_eq!(message.connection(), GnsConnection(9));
    assert_eq!(message.payload(), b"abc");
}

#[test]
fn set_payload_overwrites_a_prefix() {
    let utils = GnsUtils::new(0x1000).unwrap();
    let message = utils.allocate_message(GnsConnection(1), 0, b"abcdef").set_payload(b"XY");
    assert_eq!(message.payload(), b"XYcdef");
    let message = message.set_payload(b"");
    assert_eq!(message.payload(), b"XYcdef");
}

#[test]
fn received_message_getters_cast_the_raw_fields() {
    let message = GnsNetworkMessage::<ToReceive>::received(
        GnsConnection(4),
        -1,
        -2,
        5,
        6,
        2,
        vec![1, 2, 3],
    );
    assert_eq!(message.connection_user_data(), u64::MAX);
    assert_eq!(message.message_number(), u64::MAX - 1);
    assert_eq!(message.flags(), 5);
    assert_eq!(message.user_data(), 6);
    assert_eq!(message.lane(), 2);
    assert_eq!(message.payload(), &[1, 2, 3]);
}

#[test]
fn only_received_messages_must_be_released() {
    assert!(ToReceive::MUST_DROP);
    assert!(!ToSend::MUST_DROP);
}

#[test]
fn lanes_split_into_priorities_and_weights() {
    let (priorities, weights) = unzip_lanes(&[(1, 10), (2, 20), (u32::MAX, 0)]);
    assert_eq!(priorities, vec![1, 2, u32::MAX]);
    assert_eq!(weights, vec![10, 20, 0]);
    let (priorities, weights) = unzip_lanes(&[]);
    assert!(priorities.is_empty() && weights.is_empty());
}

#[test]
fn send_results_decode() {
    let results = read_send_results(&vec![0, 5, -11, -2]);
    assert_eq!(results, vec![Ok(0), Ok(5), Err(EResult(11)), Err(EResult(2))]);
    assert!(read_send_results(&vec![]).is_empty());
}

#[test]
fn lane_buffer_is_zeroed() {
    let lanes = lane_status_buffer(3);
    assert_eq!(lanes.len(), 3);
    assert!(lanes.iter().all(|l| *l == GnsConnectionRealTimeLaneStatus::default()));
    assert_eq!(lanes[0].queue_time, 0);
    assert!(lane_status_buffer(0).is_empty());
}

#[test]
fn real_time_status_answer() {
    let status = GnsConnectionRealTimeStatus {
        state: ConnectionState::Connected,
        ping: -1,
        send_rate_bytes_per_sec: 100,
        pending_unreliable: 1,
        pending_reliable: 2,
        sent_unacked_reliable: 3,
        queue_time: -1,
    };
    assert_eq!(status.ping(), u32::MAX);
    assert_eq!(status.approximated_queue_time(), u64::MAX);
    assert_eq!(status.send_rate_bytes_per_sec(), 100);
    assert_eq!(status.pending_bytes_unreliable(), 1);
    assert_eq!(status.pending_bytes_reliable(), 2);
    assert_eq!(status.bytes_sent_unacked_reliable(), 3);
    assert_eq!(status.state(), ConnectionState::Connected);
    match read_real_time_status(EResult(1), status, lane_status_buffer(2)) {
        Ok((s, lanes)) => {
            assert_eq!(s, status);
            assert_eq!(lanes.len(), 2);
        }
        Err(_) => panic!("success read as failure"),
    }
    match read_real_time_status(EResult(3), status, lane_status_buffer(2)) {
        Ok(_) => panic!("failure read as success"),
        Err(code) => assert_eq!(code, EResult(3)),
    }
}

#[test]
fn connection_info_answer() {
    let found = GnsConnectionInfo {
        state: ConnectionState::Connected,
        end_reason: -1,
        remote_ipv6: [1; 16],
        remote_port: 55000,
    };
    let answer = read_connection_info(true, found).unwrap();
    assert_eq!(answer.remote_port(), 55000);
    assert_eq!(answer.remote_address(), [1; 16]);
    assert_eq!(answer.end_reason(), u32::MAX);
    assert_eq!(answer.state(), ConnectionState::Connected);
    assert!(read_connection_info(false, found).is_none());
}

#[test]
fn socket_needs_an_interface() {
    let global = global();
    let utils = GnsUtils::new(0x10).unwrap();
    assert!(GnsSocket::new(&global, utils, 0).is_none());
    let socket = GnsSocket::new(&global, utils, 0x20).unwrap();
    assert_eq!(socket.interface(), 0x20);
    assert_eq!(socket.utils().into_inner(), 0x10);
    assert_eq!(socket.state().teardown(), Teardown::Nothing);
    assert!(GnsUtils::new(0).is_none());
}

#[test]
fn listen_fails_on_invalid_handles() {
    let global = global();
    let utils = GnsUtils::new(0x10).unwrap();
    let socket = GnsSocket::new(&global, utils, 0x20).unwrap();
    assert!(socket.listen().listen_socket_created(0).is_err());
    let socket = GnsSocket::new(&global, utils, 0x20).unwrap();
    let pending = socket.listen().listen_socket_created(5).unwrap();
    assert!(pending.poll_group_created(0).is_err());
}

#[test]
fn listen_makes_a_server() {
    let global = global();
    let utils = GnsUtils::new(0x10).unwrap();
    let socket = GnsSocket::new(&global, utils, 0x20).unwrap();
    let pending = socket.listen();
    assert_eq!(pending.interface(), 0x20);
    let pending = pending.listen_socket_created(5).unwrap();
    assert_eq!(pending.interface(), 0x20);
    let server = pending.poll_group_created(6).unwrap();
    assert_eq!(server.interface(), 0x20);
    assert_eq!(
        server.state().teardown(),
        Teardown::CloseListenSocket { listen_socket: GnsListenSocket(5), poll_group: GnsPollGroup(6) }
    );
    assert_eq!(server.state().receive_source(), ReceiveSource::PollGroup(GnsPollGroup(6)));
    assert_eq!(server.accept_answer(EResult(1)), Ok(GnsPollGroup(6)));
    assert_eq!(server.accept_answer(EResult(2)), Err(EResult(2)));
    assert_eq!(server.poll_group_answer(true), Ok(()));
    assert_eq!(server.poll_group_answer(false), Err(EResult(11)));
}

#[test]
fn connect_makes_a_client() {
    let global = global();
    let utils = GnsUtils::new(0x10).unwrap();
    let socket = GnsSocket::new(&global, utils, 0x20).unwrap();
    assert!(socket.connect().connected(0).is_err());
    let socket = GnsSocket::new(&global, utils, 0x20).unwrap();
    let client = socket.connect().connected(42).unwrap();
    assert_eq!(client.connection(), GnsConnection(42));
    assert_eq!(client.state().teardown(), Teardown::CloseConnection { connection: GnsConnection(42) });
    assert_eq!(client.state().receive_source(), ReceiveSource::Connection(GnsConnection(42)));
    assert_eq!(client.into_inner(), 0x20);
}

#[test]
fn poll_event_hands_out_at_most_k_events_in_order() {
    let global = global();
    let utils = GnsUtils::new(0x10).unwrap();
    let socket = GnsSocket::new(&global, utils, 0x20).unwrap();
    let pending = socket.connect();
    for connection in 1..=5 {
        pending.queue().push(event(connection, ConnectionState::NoConnection, ConnectionState::Connecting));
    }
    let client = pending.connected(42).unwrap();
    let mut seen = Vec::new();
    let processed = client.poll_event::<3, _>(|e| seen.push(e.connection().0));
    assert_eq!(processed, 3);
    assert_eq!(seen, vec![1, 2, 3]);
    let processed = client.poll_event::<3, _>(|e| seen.push(e.connection().0));
    assert_eq!(processed, 2);
    assert_eq!(seen, vec![1, 2, 3, 4, 5]);
    assert_eq!(client.poll_event::<3, _>(|_| ()), 0);
}

#[test]
fn poll_event_with_zero_drains_the_queue() {
    let global = global();
    let utils = GnsUtils::new(0x10).unwrap();
    let socket = GnsSocket::new(&global, utils, 0x20).unwrap();
    let pending = socket.listen();
    for connection in 1..=4 {
        pending.queue().push(event(connection, ConnectionState::Connecting, ConnectionState::Connected));
    }
    let server = pending.listen_socket_created(1).unwrap().poll_group_created(2).unwrap();
    assert_eq!(server.poll_event::<0, _>(|_| ()), 4);
}

#[test]
fn poll_messages_hands_out_every_received_message() {
    let global = global();
    let utils = GnsUtils::new(0x10).unwrap();
    let socket = GnsSocket::new(&global, utils, 0x20).unwrap();
    let client = socket.connect().connected(3).unwrap();
    let received = vec![
        GnsNetworkMessage::<ToReceive>::received(GnsConnection(3), 0, 1, 0, 0, 0, b"a".to_vec()),
        GnsNetworkMessage::<ToReceive>::received(GnsConnection(3), 0, 2, 0, 0, 0, b"b".to_vec()),
    ];
    let mut seen = Vec::new();
    let count = client.poll_messages::<4, _>(received, |m| seen.push(m.message_number()));
    assert_eq!(count, 2);
    assert_eq!(seen, vec![1, 2]);
}

#[test]
fn event_getters() {
    let e = event(9, ConnectionState::Connecting, ConnectionState::ClosedByPeer);
    assert_eq!(e.connection(), GnsConnection(9));
    assert_eq!(e.old_state(), ConnectionState::Connecting);
    assert_eq!(e.info().state(), ConnectionState::ClosedByPeer);
}

#[test]
fn server_reactions() {
    assert_eq!(
        server_reaction(&event(1, ConnectionState::NoConnection, ConnectionState::Connecting)),
        ServerReaction::Accept(GnsConnection(1))
    );
    assert_eq!(
        server_reaction(&event(1, ConnectionState::Connecting, ConnectionState::Connected)),
        ServerReaction::Nothing
    );
    assert_eq!(
        server_reaction(&event(1, ConnectionState::Connected, ConnectionState::ClosedByPeer)),
        ServerReaction::Leave(GnsConnection(1))
    );
    assert_eq!(
        server_reaction(&event(2, ConnectionState::Connecting, ConnectionState::ProblemDetectedLocally)),
        ServerReaction::Leave(GnsConnection(2))
    );
    assert_eq!(
        server_reaction(&event(1, ConnectionState::ClosedByPeer, ConnectionState::NoConnection)),
        ServerReaction::Report {
            previous: ConnectionState::ClosedByPeer,
            current: ConnectionState::NoConnection
        }
    );
}

#[test]
fn client_reactions() {
    assert_eq!(
        client_reaction(&event(1, ConnectionState::NoConnection, ConnectionState::Connecting)),
        ClientReaction::Connecting
    );
    assert_eq!(
        client_reaction(&event(1, ConnectionState::Connecting, ConnectionState::Connected)),
        ClientReaction::Connected
    );
    assert_eq!(
        client_reaction(&event(1, ConnectionState::Connected, ConnectionState::ProblemDetectedLocally)),
        ClientReaction::Lost
    );
    assert_eq!(
        client_reaction(&event(1, ConnectionState::Connected, ConnectionState::FinWait)),
        ClientReaction::Report { previous: ConnectionState::Connected, current: ConnectionState::FinWait }
    );
}

#[test]
fn chat_lines() {
    assert_eq!(chat_line("Server", "hi"), "[Server]: hi");
    assert_eq!(chat_line("", ""), "[]: ");
}

#[test]
fn chat_server_welcomes_relays_and_says_goodbye() {
    let utils = GnsUtils::new(0x10).unwrap();
    let mut server = ChatServer::new();
    let first = server.welcome(GnsConnection(10));
    assert_eq!(first.text, "[Server]: A new user joined us, weclome 0");
    assert_eq!(first.recipients, vec![GnsConnection(10)]);
    let second = server.welcome(GnsConnection(20));
    assert_eq!(second.text, "[Server]: A new user joined us, weclome 1");
    let mut recipients = second.recipients.clone();
    recipients.sort();
    assert_eq!(recipients, vec![GnsConnection(10), GnsConnection(20)]);
    assert_eq!(server.nickname(GnsConnection(10)).unwrap(), "0");
    assert_eq!(server.nickname(GnsConnection(20)).unwrap(), "1");

    let said = server.relay(GnsConnection(20), "hello");
    assert_eq!(said.text, "[1]: hello");
    let messages = said.messages(&utils);
    assert_eq!(messages.len(), 2);
    for (message, recipient) in messages.iter().zip(said.recipients.iter()) {
        assert_eq!(message.connection(), *recipient);
        assert_eq!(message.flags(), 8);
        assert_eq!(message.payload(), b"[1]: hello");
    }

    let bye = server.farewell(GnsConnection(10));
    assert_eq!(bye.text, "[Server]: [0] lost faith.");
    let mut recipients = bye.recipients.clone();
    recipients.sort();
    assert_eq!(recipients, vec![GnsConnection(10), GnsConnection(20)]);
    assert!(server.nickname(GnsConnection(10)).is_none());
    assert_eq!(server.connections(), vec![GnsConnection(20)]);
}

#[test]
fn join_then_leave_restores_the_roster() {
    let mut server = ChatServer::new();
    server.welcome(GnsConnection(1));
    server.welcome(GnsConnection(2));
    server.farewell(GnsConnection(2));
    assert_eq!(server.connections(), vec![GnsConnection(1)]);
    assert_eq!(server.nickname(GnsConnection(1)).unwrap(), "0");
}

#[test]
fn rewelcoming_a_client_renames_it() {
    let mut server = ChatServer::new();
    server.welcome(GnsConnection(1));
    server.welcome(GnsConnection(1));
    assert_eq!(server.connections(), vec![GnsConnection(1)]);
    assert_eq!(server.nickname(GnsConnection(1)).unwrap(), "1");
}

#[test]
fn nicknames_stay_distinct() {
    let mut server = ChatServer::new();
    for c in 0..12 {
        server.welcome(GnsConnection(c));
    }
    server.farewell(GnsConnection(3));
    server.welcome(GnsConnection(3));
    let mut names: Vec<String> = server
        .connections()
        .iter()
        .map(|c| server.nickname(*c).unwrap().clone())
        .collect();
    assert_eq!(server.nickname(GnsConnection(3)).unwrap(), "12");
    assert_eq!(server.nickname(GnsConnection(11)).unwrap(), "11");
    names.sort();
    names.dedup();
    assert_eq!(names.len(), 12);
}

#[test]
fn stats_every_ten_seconds() {
    assert!(!stats_due(0));
    assert!(!stats_due(10));
    assert!(stats_due(11));
}

#[test]
fn client_input() {
    assert!(matches!(on_input("quit\n"), InputAction::Quit));
    assert!(matches!(on_input("  quit  "), InputAction::Quit));
    match on_input("  hello there \n") {
        InputAction::Send(text) => assert_eq!(text, "hello there"),
        InputAction::Quit => panic!("a chat line was read as quit"),
    }
    match on_input("quitting\n") {
        InputAction::Send(text) => assert_eq!(text, "quitting"),
        InputAction::Quit => panic!("a chat line was read as quit"),
    }
    assert!(matches!(input_action("quit"), InputAction::Quit));
    match input_action(" quit") {
        InputAction::Send(text) => assert_eq!(text, " quit"),
        InputAction::Quit => panic!("an untrimmed line was read as quit"),
    }
}

#[test]
fn payload_text() {
    assert_eq!(utf8_text(b"h\xc3\xa9").unwrap(), "h\u{e9}");
    assert!(utf8_text(b"\xff").is_none());
    assert!(same_text("ab", "ab"));
    assert!(!same_text("ab", "abc"));
    assert!(!same_text("ab", "ac"));
}

#[test]
fn poll_step_hands_out_counts_and_stops() {
    let e = event(5, ConnectionState::NoConnection, ConnectionState::Connecting);
    let (handed, count, stop) = poll_step(3, 1, Some(e));
    assert_eq!(handed.unwrap().connection(), GnsConnection(5));
    assert_eq!(count, 2);
    assert!(!stop);
    let (_, count, stop) = poll_step(3, 2, Some(e));
    assert_eq!(count, 3);
    assert!(stop);
    let (_, count, stop) = poll_step(0, 7, Some(e));
    assert_eq!(count, 8);
    assert!(!stop);
    let (handed, count, stop) = poll_step(3, 1, None);
    assert!(handed.is_none());
    assert_eq!(count, 1);
    assert!(stop);
}

#[test]
fn receive_counts() {
    assert_eq!(received_message_count(-1), 0);
    assert_eq!(received_message_count(0), 0);
    assert_eq!(received_message_count(42), 42);
}

#[test]
fn decimal_notation() {
    assert_eq!(decimal_text(0), "0");
    assert_eq!(decimal_text(7), "7");
    assert_eq!(decimal_text(305), "305");
    assert_eq!(decimal_text(u32::MAX), "4294967295");
}

#[test]
fn unicode_white_space_is_trimmed() {
    assert!(matches!(on_input("\u{3000}quit\u{85}\t"), InputAction::Quit));
    match on_input("\u{a0}hi\u{2028}") {
        InputAction::Send(text) => assert_eq!(text, "hi"),
        InputAction::Quit => panic!("a chat line was read as quit"),
    }
}
