# wagonet

Request/response transport over TCP and TLS with a small binary protocol, connection
reuse, keep-alive pings and time limits. The protocol is written as state machines in
Verus; a thin async driver performs their I/O.

## Protocol

A request is an 8-byte header (command and payload size, both big-endian `u32`), answered
by one status byte, and then the payload. A response is a status byte, followed by the
payload size (big-endian `u32`) where a payload follows; the client acknowledges it with
one byte before the payload is sent. The size comes together with the status: a client
that sees none within 10 milliseconds takes the payload to be empty. Status 1 is success.
A request with command 0 is a ping and must have no payload: its one-byte answer is all
there is.

In no-answer mode (`set_command_has_answer(false)`, or `handle_message_with_no_answer` for
one message) the client is done once the request is sent and acknowledges the response
ahead of time. It does not wait for the status, which the next user of the connection
passes over.

## Layout

- `src/`: the verified library.
  - `be_bytes`, `request_header`, `response_header`, `protocol_structs`: the wire format.
  - `duration`, `timeout_config`, `probes`: spans of time, time limits, socket probes.
  - `server`, `server_tl`, `server_tls`: taking requests and answering them.
  - `exchange`, `connect`, `message`, `disconnect`, `session`, `client_tl`, `client_tls`:
    the client.
  - `ping`: the background task.
  - `conversation`: what holds of a client and a server that talk on one connection.
  - `sharing`: what holds of a request and pings that share a connection.
- `app/`: the driver on `tokio`, `native-tls` and `socket2`.
- `tests/`: codecs, single machines, and clients and servers on a simulated network.

Every operation is a machine: `action` names the next piece of I/O, and `advance` takes
in what came of it. Contracts give both as functions of the machine's state.
