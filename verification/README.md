# gns

A verified core for a binding to Valve's GameNetworkingSockets, with the chat
example that drives it.

- `src/` is checked by Verus:
  - `result.rs`: Steam result codes and their reading as success or failure;
  - `connection.rs`: connection handles, states, information, status and events;
  - `message.rs`: the value model of a message and its getters and setters, and the
    split of lanes into the tables that the library takes;
  - `queue.rs`: the event queue that the connection-status hook fills;
  - `socket.rs`: the library handle, the utilities, and the life cycle of a socket
    (created, listening, connected), with what each state gives back when dropped;
  - `text.rs`: decimal notation, UTF-8 payloads and text comparison;
  - `chat.rs`: the chat server's roster and the answers of server and client to
    events and input.
- `app/` performs the calls into the C library (through `gns-sys`), holds the
  process-wide flag, and runs the chat program's loops.
