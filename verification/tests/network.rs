//! Clients and servers on a simulated network with a simulated clock.

use wagonet::connect::{Connect, ConnectAction, ConnectEvent, MAX_DIALS};
use wagonet::disconnect::{Disconnect, DisconnectAction, DisconnectEvent};
use wagonet::message::{HandleMessage, MessageAction, MessageEvent};
use wagonet::ping::{PingAction, PingEvent, PingStep, PingTask};
use wagonet::protocol_structs::ResponseStatus;
use wagonet::request_header::RequestHeader;
use wagonet::response_header::ResponseHeader;
use wagonet::server::{ReadCommand, ReceiveData, Request, SendData};
use wagonet::session::{Release, Session};
use wagonet::timeout_config::KeepAliveConfig;
use wagonet::transport::{Action, Event, Progress};
use wagonet::{ClientTL, ClientTLS, Duration, Error, ServerTL, ServerTLS, TimeoutConfig};

/// Bytes on their way.
struct Link {
    up: Vec<u8>,
    down: Vec<u8>,
}

fn perform(action: Action, incoming: &mut Vec<u8>, outgoing: &mut Vec<u8>) -> Event {
    match action {
        Action::Write { bytes, .. } => {
            outgoing.extend_from_slice(&bytes);
            Event::Completed
        }
        Action::Flush => Event::Completed,
        Action::Read { len, .. } => {
            let rest = incoming.split_off(len);
            Event::Received(std::mem::replace(incoming, rest))
        }
    }
}

fn waits(action: &Action, incoming: &[u8]) -> bool {
    matches!(action, Action::Read { len, .. } if incoming.len() < *len)
}

enum Host {
    Tl(ServerTL),
    Tls(ServerTLS),
}

impl Host {
    fn read_command(&self) -> ReadCommand {
        match self {
            Host::Tl(server) => server.read_command(),
            Host::Tls(server) => server.read_command(),
        }
    }

    fn receive_data(&self, len: usize) -> Result<ReceiveData, Error> {
        match self {
            Host::Tl(server) => server.receive_data(len),
            Host::Tls(server) => server.receive_data(len),
        }
    }

    fn send_data(&self, status: u8, buf: Option<&[u8]>) -> SendData {
        match self {
            Host::Tl(server) => server.send_data(status, buf),
            Host::Tls(server) => server.send_data(status, buf),
        }
    }
}

enum Duty {
    Reading(ReadCommand),
    Receiving(u32, ReceiveData),
    Sending(SendData),
    Silent,
    Closed,
}

/// A server that handles request after request.
struct Peer {
    host: Host,
    status: u8,
    reply: Option<Vec<u8>>,
    /// Takes requests and says nothing about them.
    silent: bool,
    /// Drops the connection at the next request header.
    drop_next: bool,
    duty: Duty,
    served: Vec<(u32, Vec<u8>)>,
    pings: usize,
    error: Option<Error>,
}

impl Peer {
    fn new(host: Host, status: u8, reply: Option<&[u8]>) -> Peer {
        Peer {
            host,
            status,
            reply: reply.map(|bytes| bytes.to_vec()),
            silent: false,
            drop_next: false,
            duty: Duty::Closed,
            served: Vec::new(),
            pings: 0,
            error: None,
        }
    }

    fn restart(&mut self) {
        self.duty = Duty::Reading(self.host.read_command());
    }

    fn fail(&mut self, error: Error) {
        self.error = Some(error);
        self.duty = Duty::Closed;
    }

    /// Performs one piece of I/O; false where it has to wait.
    fn step(&mut self, link: &mut Link) -> bool {
        match std::mem::replace(&mut self.duty, Duty::Closed) {
            Duty::Closed => return false,
            Duty::Silent => {
                self.duty = Duty::Silent;
                return false;
            }
            Duty::Reading(machine) => {
                let action = machine.action();
                if waits(&action, &link.up) {
                    self.duty = Duty::Reading(machine);
                    return false;
                }
                if self.drop_next && matches!(action, Action::Read { .. }) {
                    self.drop_next = false;
                    return true;
                }
                match machine.advance(perform(action, &mut link.up, &mut link.down)) {
                    Progress::Pending(machine) => self.duty = Duty::Reading(machine),
                    Progress::Finished(Ok(Request::Ping)) => {
                        self.pings += 1;
                        self.restart();
                    }
                    Progress::Finished(Ok(Request::Command { command, data_size })) => {
                        match self.host.receive_data(data_size) {
                            Ok(machine) => self.duty = Duty::Receiving(command, machine),
                            Err(error) => self.fail(error),
                        }
                    }
                    Progress::Finished(Err(error)) => self.fail(error),
                }
            }
            Duty::Receiving(command, machine) => {
                let action = machine.action();
                if waits(&action, &link.up) {
                    self.duty = Duty::Receiving(command, machine);
                    return false;
                }
                match machine.advance(perform(action, &mut link.up, &mut link.down)) {
                    Progress::Pending(machine) => self.duty = Duty::Receiving(command, machine),
                    Progress::Finished(Ok(data)) => {
                        self.served.push((command, data));
                        self.duty = if self.silent {
                            Duty::Silent
                        } else {
                            Duty::Sending(self.host.send_data(self.status, self.reply.as_deref()))
                        };
                    }
                    Progress::Finished(Err(error)) => self.fail(error),
                }
            }
            Duty::Sending(machine) => {
                let action = machine.action();
                if waits(&action, &link.up) {
                    self.duty = Duty::Sending(machine);
                    return false;
                }
                match machine.advance(perform(action, &mut link.up, &mut link.down)) {
                    Progress::Pending(machine) => self.duty = Duty::Sending(machine),
                    Progress::Finished(Ok(())) => self.restart(),
                    Progress::Finished(Err(error)) => self.fail(error),
                }
            }
        }
        true
    }
}

fn millis(span: Duration) -> u64 {
    span.as_secs() * 1000 + u64::from(span.subsec_nanos()) / 1_000_000
}

struct Net {
    now: u64,
    peer: Peer,
    link: Link,
    connected: bool,
    dials: usize,
    /// So many attempts to connect fail.
    unreachable: usize,
    probes: Vec<Option<KeepAliveConfig>>,
    security: Vec<String>,
    tasks: Vec<(u64, PingTask)>,
}

impl Net {
    fn new(peer: Peer) -> Net {
        Net {
            now: 0,
            peer,
            link: Link { up: Vec::new(), down: Vec::new() },
            connected: false,
            dials: 0,
            unreachable: 0,
            probes: Vec::new(),
            security: Vec::new(),
            tasks: Vec::new(),
        }
    }

    fn time(&self) -> Duration {
        Duration::from_millis(self.now)
    }

    /// Performs the client's I/O, with the server at work meanwhile.
    fn io(&mut self, action: Action) -> Event {
        while waits(&action, &self.link.down) {
            if self.peer.step(&mut self.link) {
                continue;
            }
            if matches!(self.peer.duty, Duty::Closed) {
                return Event::Failed("unexpected end of file".to_string());
            }
            match action {
                Action::Read { timeout: Some(limit), .. } => {
                    self.now += millis(limit);
                    return Event::TimedOut;
                }
                _ => panic!("both sides wait"),
            }
        }
        perform(action, &mut self.link.down, &mut self.link.up)
    }

    fn connect_step(&mut self, action: ConnectAction) -> ConnectEvent {
        match action {
            ConnectAction::Prepare { accept_invalid_certs } => {
                self.security.push(format!("accept_invalid_certs {accept_invalid_certs}"));
            }
            ConnectAction::Dial { address, timeout } => {
                assert_eq!(address, "server:1");
                assert_eq!(millis(timeout), 10_000);
                self.dials += 1;
                if self.unreachable > 0 {
                    self.unreachable -= 1;
                    return ConnectEvent::Failed("connection refused".to_string());
                }
                self.link = Link { up: Vec::new(), down: Vec::new() };
                self.peer.restart();
            }
            ConnectAction::Configure { probes } => {
                self.probes.push(probes);
                return ConnectEvent::Failed("not supported".to_string());
            }
            ConnectAction::Handshake { domain } => self.security.push(domain),
            ConnectAction::Install => self.connected = true,
            ConnectAction::Spawn { task } => self.schedule(task),
            ConnectAction::Pause(pause) => self.now += millis(pause),
        }
        ConnectEvent::Completed
    }

    fn schedule(&mut self, task: PingTask) {
        match task.action() {
            PingAction::Sleep(pause) => self.tasks.push((self.now + millis(pause), task)),
            _ => panic!("the task is not asleep"),
        }
    }

    fn connect(&mut self, session: &mut Session, mut machine: Connect) -> Result<(), Error> {
        loop {
            let event = self.connect_step(machine.action(session));
            match machine.advance(session, event) {
                Progress::Pending(next) => machine = next,
                Progress::Finished(result) => return result,
            }
        }
    }

    fn message(&mut self, session: &mut Session, mut machine: HandleMessage) -> Result<Vec<u8>, Error> {
        loop {
            let event = match machine.action(session) {
                MessageAction::Connect(action) => {
                    MessageEvent::Connect(self.connect_step(action))
                }
                MessageAction::Claim => MessageEvent::Claimed { connected: self.connected },
                MessageAction::Io(action) => MessageEvent::Io(self.io(action)),
                MessageAction::Abandon { patience } => {
                    assert_eq!(patience.is_some(), session.keep_alive);
                    self.connected = false;
                    MessageEvent::Abandoned
                }
            };
            match machine.advance(session, self.time(), event) {
                Progress::Pending(next) => machine = next,
                Progress::Finished(result) => return result,
            }
        }
    }

    fn handle_message(
        &mut self,
        client: &mut ClientTL,
        command: u32,
        data: &[u8],
    ) -> Result<Vec<u8>, Error> {
        let machine = client.handle_message(command, data, self.connected);
        let result = self.message(&mut client.session, machine);
        while self.peer.step(&mut self.link) {}
        result
    }

    fn disconnect(&mut self, mut machine: Disconnect) -> Result<(), Error> {
        loop {
            let event = match machine.action() {
                DisconnectAction::Collect { patience } => {
                    assert_eq!(millis(patience), 5000);
                    self.tasks.clear();
                    DisconnectEvent::Completed
                }
                DisconnectAction::Open => DisconnectEvent::Opened { connected: self.connected },
                DisconnectAction::Shutdown => DisconnectEvent::Completed,
                DisconnectAction::Clear => {
                    self.connected = false;
                    DisconnectEvent::Completed
                }
            };
            match machine.advance(event) {
                Progress::Pending(next) => machine = next,
                Progress::Finished(result) => return result,
            }
        }
    }

    fn release(&mut self, duty: Option<Release>) {
        if duty.is_some() {
            self.connected = false;
        }
    }

    /// Lets time pass, with the ping tasks at work.
    fn sleep(&mut self, session: &mut Session, span: u64) {
        let end = self.now + span;
        loop {
            let next = (0..self.tasks.len()).min_by_key(|&i| self.tasks[i].0);
            match next {
                Some(i) if self.tasks[i].0 <= end => {
                    let (wake, task) = self.tasks.remove(i);
                    self.now = self.now.max(wake);
                    self.wake(session, task);
                }
                _ => break,
            }
        }
        self.now = self.now.max(end);
    }

    fn wake(&mut self, session: &mut Session, task: PingTask) {
        let mut task = task;
        let mut event = PingEvent::Woke;
        loop {
            match task.advance(&mut session.ping_state, self.time(), event) {
                PingStep::Stop { drop_stream } => {
                    if drop_stream {
                        self.connected = false;
                    }
                    return;
                }
                PingStep::Continue(next) => task = next,
            }
            event = match task.action() {
                PingAction::Sleep(_) => {
                    self.schedule(task);
                    return;
                }
                PingAction::Claim => PingEvent::Claimed(true),
                PingAction::Open => PingEvent::Opened(self.connected),
                PingAction::Io(action) => PingEvent::Io(self.io(action)),
            };
        }
    }
}

fn server_tl(read_header: u64) -> ServerTL {
    let mut server = ServerTL::new();
    server.set_timeout_config(TimeoutConfig {
        read_header: Duration::from_millis(read_header),
        ..Default::default()
    });
    server
}

fn ok_peer() -> Peer {
    Peer::new(Host::Tl(server_tl(500)), 1, Some(b"OK"))
}

fn client() -> ClientTL {
    ClientTL::new("server:1".to_string(), Duration::zero())
}

fn kept_client(ping_interval: u64) -> ClientTL {
    let mut client = client();
    assert!(client.set_keep_alive(true).is_none());
    client
        .set_timeout_config(TimeoutConfig {
            ping_interval: Duration::from_millis(ping_interval),
            ..Default::default()
        })
        .unwrap();
    client
}

#[test]
fn test_tcp_transport_success() {
    let peer = Peer::new(
        Host::Tl(ServerTL::new()),
        ResponseStatus::Success.into(),
        Some(b"hello client"),
    );
    let mut net = Net::new(peer);
    let mut client = client();

    let response = net.handle_message(&mut client, 42, b"hello server").unwrap();
    assert_eq!(response, b"hello client");
    assert_eq!(net.peer.served.len(), 1);
    let (command, data) = &net.peer.served[0];
    assert_eq!(*command, 42);
    assert_eq!(data.len(), 12);
    assert_eq!(data, b"hello server");
}

#[test]
fn test_tcp_transport_buffer_overflow() {
    let mut server = ServerTL::new();
    server.set_max_buffer_size(5);
    let mut net = Net::new(Peer::new(Host::Tl(server), 1, Some(b"OK")));
    let mut client = client();

    let response_res =
        net.handle_message(&mut client, 10, b"this payload is too long for server");

    assert!(response_res.is_err());
    assert!(matches!(
        &net.peer.error,
        Some(Error::Msg(text)) if text == "Data size exceeds maximum allowed buffer size"
    ));
    assert!(net.peer.served.is_empty());
    assert!(!net.connected);
}

#[test]
fn test_tcp_transport_no_answer() {
    let peer = Peer::new(Host::Tl(ServerTL::new()), ResponseStatus::Success.into(), None);
    let mut net = Net::new(peer);
    let mut client = client();

    let machine = client.handle_message_with_no_answer(99, b"fire and forget", net.connected);
    let response = net.message(&mut client.session, machine).unwrap();
    while net.peer.step(&mut net.link) {}

    assert!(response.is_empty());
    assert_eq!(net.peer.served, [(99, b"fire and forget".to_vec())]);
    assert!(net.peer.error.is_none());
    assert!(client.session.command_has_answer);
}

#[test]
fn without_an_answer_nothing_is_waited_for() {
    let mut net = Net::new(ok_peer());
    net.peer.silent = true;
    let mut client = client();
    client.set_command_has_answer(false);
    assert_eq!(net.handle_message(&mut client, 7, b"event").unwrap(), b"");
    assert_eq!(net.peer.served, [(7, b"event".to_vec())]);
    assert_eq!(net.now, 0);
    assert!(net.connected);
}

#[test]
fn owed_statuses_are_passed_over() {
    // Whatever the status, nobody waits for it.
    let mut net = Net::new(Peer::new(Host::Tl(server_tl(500)), 5, None));
    let mut client = kept_client(100);
    client.set_command_has_answer(false);
    for i in 1..=3 {
        assert_eq!(net.handle_message(&mut client, i, b"event").unwrap(), b"");
        assert_eq!(net.link.down, [5]);
        assert!(client.session.ping_state.status_owed);
    }
    net.sleep(&mut client.session, 150);
    assert_eq!(net.peer.pings, 1);
    assert!(!client.session.ping_state.status_owed);
    assert!(net.link.down.is_empty());

    assert_eq!(net.handle_message(&mut client, 4, b"event").unwrap(), b"");
    net.peer.status = 1;
    net.peer.reply = Some(b"OK".to_vec());
    client.set_command_has_answer(true);
    assert_eq!(net.handle_message(&mut client, 5, b"request").unwrap(), b"OK");
    assert!(net.link.up.is_empty() && net.link.down.is_empty());
    assert_eq!(net.peer.served.len(), 5);
    assert_eq!(net.dials, 1);
    assert!(net.peer.error.is_none());
}

#[test]
fn an_owed_status_may_come_with_the_next_answer() {
    let mut net = Net::new(Peer::new(Host::Tl(server_tl(500)), 1, None));
    let mut client = kept_client(1000);
    client.set_command_has_answer(false);
    // The server is behind: it has not answered when the next request is made.
    let machine = client.handle_message(1, b"event", false);
    net.message(&mut client.session, machine).unwrap();
    assert!(net.link.down.is_empty());
    let machine = client.handle_message(2, b"event", true);
    net.message(&mut client.session, machine).unwrap();
    while net.peer.step(&mut net.link) {}
    assert_eq!(net.peer.served, [(1, b"event".to_vec()), (2, b"event".to_vec())]);
    assert_eq!(net.link.down, [1]);
}

#[test]
fn a_new_connection_owes_nothing() {
    let mut net = Net::new(Peer::new(Host::Tl(ServerTL::new()), 1, None));
    let mut client = client();
    client.set_command_has_answer(false);
    net.handle_message(&mut client, 1, b"event").unwrap();
    net.handle_message(&mut client, 2, b"event").unwrap();
    assert_eq!(net.dials, 2);
    assert_eq!(net.peer.served.len(), 2);
}

#[test]
fn stray_bytes_end_a_kept_connection() {
    let mut net = Net::new(ok_peer());
    let mut client = kept_client(1000);
    net.handle_message(&mut client, 1, b"x").unwrap();
    net.link.down.extend_from_slice(&[0, 0, 0, 2]);
    let result = net.handle_message(&mut client, 2, b"y");
    assert!(matches!(
        result,
        Err(Error::Protocol(text)) if text == "Unexpected data on the connection"
    ));
    assert!(!net.connected);
    assert_eq!(net.peer.served, [(1, b"x".to_vec())]);
    assert_eq!(net.handle_message(&mut client, 3, b"z").unwrap(), b"OK");
    assert_eq!(net.dials, 2);
}

#[test]
fn no_answer_leaves_the_setting_alone() {
    let mut client = client();
    client.set_command_has_answer(false);
    let _ = client.handle_message_with_no_answer(1, b"x", false);
    assert!(!client.session.command_has_answer);
}

#[test]
fn test_tls_transport_success() {
    let peer = Peer::new(
        Host::Tls(ServerTLS::new()),
        ResponseStatus::Success.into(),
        Some(b"secure reply"),
    );
    let mut net = Net::new(peer);
    let mut client = ClientTLS::new("server:1".to_string(), Duration::zero());
    client.set_accept_invalid_certs(true);
    client.set_domain("example.org".to_string());

    let machine = client.handle_message(77, b"secure hello", net.connected);
    let response = net.message(&mut client.session, machine).unwrap();
    assert_eq!(response, b"secure reply");
    assert_eq!(net.peer.served, [(77, b"secure hello".to_vec())]);
    assert_eq!(net.security, ["accept_invalid_certs true", "example.org"]);
}

#[test]
fn tls_client_defaults() {
    let client = ClientTLS::new("server:1".to_string(), Duration::zero());
    assert!(!client.accept_invalid_certs);
    assert_eq!(client.domain, "example.org");
    let mut net = Net::new(ok_peer());
    let mut session = client.session;
    let machine = ClientTLS::new("server:1".to_string(), Duration::zero()).connect();
    net.connect(&mut session, machine).unwrap();
    assert_eq!(net.security, ["accept_invalid_certs false", "example.org"]);
}

#[test]
fn client_tl_server_tl_ping_no_payload() {
    let mut net = Net::new(ok_peer());
    let mut client = kept_client(100);
    let machine = client.connect();
    net.connect(&mut client.session, machine).unwrap();

    let mut buf = Vec::new();
    RequestHeader::new(0, 0).encode(&mut buf).unwrap();
    net.link.up.extend_from_slice(&buf);
    while net.peer.step(&mut net.link) {}
    assert_eq!(net.link.down, [1]);

    let machine = client.disconnect();
    net.disconnect(machine).unwrap();
    assert_eq!(net.peer.pings, 1);
}

#[test]
fn server_tl_server_tl_ping_no_payload() {
    let server = server_tl(500);
    let mut link = Link { up: Vec::new(), down: Vec::new() };
    RequestHeader::new(0, 0).encode(&mut link.up).unwrap();
    let mut machine = server.read_command();
    let request = loop {
        let event = perform(machine.action(), &mut link.up, &mut link.down);
        match machine.advance(event) {
            Progress::Pending(next) => machine = next,
            Progress::Finished(result) => break result.unwrap(),
        }
    };
    assert!(ServerTL::command(request).is_none(), "Ping should return None");
    assert_eq!(link.down, [1]);
}

#[test]
fn server_tls_ping_no_payload() {
    let mut server = ServerTLS::new();
    server.set_timeout_config(TimeoutConfig {
        read_header: Duration::from_millis(500),
        ..Default::default()
    });
    let mut link = Link { up: Vec::new(), down: Vec::new() };
    RequestHeader::new(0, 0).encode(&mut link.up).unwrap();
    let mut machine = server.read_command();
    let request = loop {
        let event = perform(machine.action(), &mut link.up, &mut link.down);
        match machine.advance(event) {
            Progress::Pending(next) => machine = next,
            Progress::Finished(result) => break result.unwrap(),
        }
    };
    let (command, data_size) = ServerTLS::command(request);
    assert_eq!(command, 0);
    assert_eq!(data_size, 0);
    assert_eq!(link.down, [1]);
}

#[test]
fn server_tl_regular_command() {
    let mut peer = Peer::new(Host::Tl(server_tl(500)), 1, Some(b"OK"));
    peer.restart();
    let mut link = Link { up: Vec::new(), down: Vec::new() };
    RequestHeader::new(42, 5).encode(&mut link.up).unwrap();
    while peer.step(&mut link) {}
    assert!(matches!(peer.duty, Duty::Receiving(42, _)), "Regular command should return Some");
    assert_eq!(ServerTL::command(Request::Command { command: 42, data_size: 5 }), Some((42, 5)));
    assert_eq!(link.down, [1]);

    link.down.clear();
    link.up.extend_from_slice(b"hello");
    while peer.step(&mut link) {}
    assert_eq!(peer.served, [(42, b"hello".to_vec())]);
    assert_eq!(link.down.len(), 5);
    let mut slice = link.down.as_slice();
    let header = ResponseHeader::decode(&mut slice, false, usize::MAX).unwrap();
    assert_eq!(header.status, 1);
    assert_eq!(header.data_size, 2);

    link.down.clear();
    ResponseHeader::new(1, 0).encode(&mut link.up, true).unwrap();
    while peer.step(&mut link) {}
    assert_eq!(link.down, b"OK");
    assert!(peer.error.is_none());
}

#[test]
fn client_ping_timer() {
    let mut net = Net::new(ok_peer());
    let mut client = kept_client(100);
    let machine = client.connect();
    net.connect(&mut client.session, machine).unwrap();

    net.sleep(&mut client.session, 350);

    let machine = client.disconnect();
    net.disconnect(machine).unwrap();
    let count = net.peer.pings;
    assert!(count >= 3, "Expected at least 3 pings, got {}", count);
    assert!(!net.connected);
}

#[test]
fn no_pings_between_frequent_requests() {
    let mut net = Net::new(ok_peer());
    let mut client = kept_client(200);
    for i in 1..=10 {
        net.handle_message(&mut client, i, b"data").unwrap();
        net.sleep(&mut client.session, 50);
    }
    let machine = client.disconnect();
    net.disconnect(machine).unwrap();
    let count = net.peer.pings;
    assert_eq!(count, 0, "Expected no pings during active requests, got {}", count);
    assert_eq!(net.dials, 1);
}

#[test]
fn keep_alive_cycle_true_false_true() {
    let mut net = Net::new(ok_peer());
    let mut client = client();
    assert!(client.set_keep_alive(true).is_none());
    client
        .set_timeout_config(TimeoutConfig {
            read_header: Duration::from_millis(500),
            ping_interval: Duration::from_millis(200),
            ..Default::default()
        })
        .unwrap();

    net.handle_message(&mut client, 1, b"hello").unwrap();
    net.sleep(&mut client.session, 600);
    let phase1 = net.peer.pings;
    assert!(phase1 >= 2, "Phase 1 (true): Expected at least 2 pings, got {}", phase1);

    let duty = client.set_keep_alive(false);
    assert_eq!(duty.as_ref().unwrap().patience.map(millis), Some(5000));
    net.release(duty);
    net.sleep(&mut client.session, 500);
    let phase2 = net.peer.pings;
    assert_eq!(phase2, phase1, "Phase 2 (false): Ping count should not increase");
    assert!(net.tasks.is_empty());

    client.set_keep_alive(true);
    net.handle_message(&mut client, 2, b"restart").unwrap();
    net.sleep(&mut client.session, 800);
    let phase3 = net.peer.pings;
    assert!(phase3 > phase2, "Phase 3 (true): Expected more pings after re-enable");

    let machine = client.disconnect();
    net.disconnect(machine).unwrap();
}

#[test]
fn test_keep_alive_reuses_connection() {
    let mut net = Net::new(ok_peer());
    let mut client = client();
    client.set_keep_alive(true);
    net.handle_message(&mut client, 1, b"hello").unwrap();
    net.handle_message(&mut client, 2, b"world").unwrap();
    assert_eq!(net.dials, 1, "Expected exactly 1 TCP connection to be reused across requests");
    assert!(net.link.up.is_empty() && net.link.down.is_empty());
    assert_eq!(net.tasks.len(), 1);
}

#[test]
fn without_keep_alive_every_message_connects() {
    let mut net = Net::new(ok_peer());
    let mut client = client();
    net.handle_message(&mut client, 1, b"hello").unwrap();
    net.handle_message(&mut client, 2, b"world").unwrap();
    assert_eq!(net.dials, 2);
    assert!(net.tasks.is_empty());
    assert!(net.probes.is_empty());
}

fn failing_client() -> (Net, ClientTL) {
    let mut net = Net::new(ok_peer());
    net.peer.drop_next = true;
    let mut client = client();
    client.set_keep_alive(true);
    client
        .set_timeout_config(TimeoutConfig {
            read_header: Duration::from_millis(500),
            ..Default::default()
        })
        .unwrap();
    (net, client)
}

#[test]
fn test_keep_alive_no_duplicate_on_failure() {
    let (mut net, mut client) = failing_client();
    let res1 = net.handle_message(&mut client, 1, b"test");
    assert!(res1.is_err(), "First call should fail due to the simulated server-side drop");
    assert_eq!(net.dials, 1);

    let _res2 = net.handle_message(&mut client, 2, b"test2");
    assert_eq!(
        net.dials, 2,
        "Expected 2 separate TCP connection attempts, one per handle_message call"
    );
    assert_eq!(net.peer.served, [(2, b"test2".to_vec())]);
}

#[test]
fn test_keep_alive_recovers_on_next_call() {
    let (mut net, mut client) = failing_client();
    let res1 = net.handle_message(&mut client, 1, b"test");
    assert!(res1.is_err(), "First call should fail");
    assert!(client.session.ping_state.should_stop);
    net.sleep(&mut client.session, 100);

    let res2 = net.handle_message(&mut client, 2, b"test2");
    assert!(res2.is_ok(), "Second call should succeed after reconnect");
    assert_eq!(net.dials, 2, "Expected 2 connections: 1 failed, 1 successful reconnect");
    assert!(client.session.ping_state.running);
    assert!(!client.session.ping_state.should_stop);
}

#[test]
fn backward_compat_old_client_new_server() {
    let mut net = Net::new(Peer::new(Host::Tl(server_tl(10_000)), 1, Some(b"OK")));
    let mut client = client();
    client.set_keep_alive(true);
    client
        .set_timeout_config(TimeoutConfig {
            read_header: Duration::from_secs(10),
            ..Default::default()
        })
        .unwrap();
    for i in 1..=3 {
        let response = net.handle_message(&mut client, i, b"data").unwrap();
        assert_eq!(response, b"OK");
    }
    assert_eq!(net.dials, 1);
    let machine = client.disconnect();
    net.disconnect(machine).unwrap();
}

#[test]
fn a_server_out_of_reach_is_dialled_ten_times() {
    let mut net = Net::new(ok_peer());
    net.unreachable = 100;
    let mut client = client();
    let result = net.handle_message(&mut client, 1, b"x");
    assert!(matches!(
        result,
        Err(Error::Msg(text)) if text == "Connection error, max retries reached"
    ));
    assert_eq!(net.dials, usize::from(MAX_DIALS));
    assert_eq!(net.dials, 10);
    assert_eq!(net.now, 10_000);
}

#[test]
fn an_earlier_stream_makes_no_connection() {
    let mut net = Net::new(ok_peer());
    let mut client = client();
    net.handle_message(&mut client, 1, b"x").unwrap();
    assert!(net.connected);
    net.unreachable = 100;
    let result = net.handle_message(&mut client, 2, b"y");
    assert!(matches!(
        result,
        Err(Error::Msg(text)) if text == "Connection error, max retries reached"
    ));
    assert_eq!(net.dials, 11);
    assert_eq!(net.peer.served, [(1, b"x".to_vec())]);
}

#[test]
fn a_tls_server_out_of_reach_is_dialled_ten_times() {
    let mut net = Net::new(ok_peer());
    net.unreachable = 100;
    net.connected = true;
    let mut client = ClientTLS::new("server:1".to_string(), Duration::zero());
    let machine = client.connect();
    let result = net.connect(&mut client.session, machine);
    assert!(matches!(
        result,
        Err(Error::Msg(text)) if text == "Connection error, max retries reached"
    ));
    assert_eq!(net.dials, 10);
}

#[test]
fn the_last_attempt_counts() {
    let mut net = Net::new(ok_peer());
    net.unreachable = 9;
    let mut client = client();
    assert_eq!(net.handle_message(&mut client, 1, b"x").unwrap(), b"OK");
    assert_eq!(net.dials, 10);
}

#[test]
fn probes_are_configured_for_kept_connections() {
    let mut net = Net::new(ok_peer());
    let mut client = client();
    client.set_keep_alive(true);
    client
        .set_timeout_config(TimeoutConfig {
            keep_alive: Some(KeepAliveConfig {
                time: Duration::from_secs(60),
                interval: Duration::from_millis(1500),
            }),
            ..Default::default()
        })
        .unwrap();
    // A failure to configure the probes is passed over.
    assert_eq!(net.handle_message(&mut client, 1, b"x").unwrap(), b"OK");
    assert_eq!(net.probes.len(), 1);
    let params = net.probes[0].unwrap().tcp_keepalive();
    let text = format!("{:?}", params);
    assert!(text.contains("time: Some(60s)"), "{}", text);
    assert!(text.contains("interval: Some(1.5s)"), "{}", text);
}

#[test]
fn probes_left_to_the_system() {
    let mut net = Net::new(ok_peer());
    let mut client = client();
    client.set_keep_alive(true);
    net.handle_message(&mut client, 1, b"x").unwrap();
    assert_eq!(net.probes.len(), 1);
    assert!(net.probes[0].is_none());
}

#[test]
fn an_error_status_reaches_the_client() {
    let peer = Peer::new(Host::Tl(ServerTL::new()), 8, Some(b"why"));
    let mut net = Net::new(peer);
    let mut client = client();
    let result = net.handle_message(&mut client, 5, b"x");
    assert!(matches!(result, Err(Error::ResponseError { status: 8 })));
    assert_eq!(net.peer.served, [(5, b"x".to_vec())]);
    assert!(!net.connected);
}

#[test]
fn an_error_status_reaches_the_tls_client() {
    let mut net = Net::new(Peer::new(Host::Tls(ServerTLS::new()), 13, Some(b"why")));
    let mut client = ClientTLS::new("server:1".to_string(), Duration::zero());
    let machine = client.handle_message(5, b"x", false);
    let result = net.message(&mut client.session, machine);
    assert!(matches!(result, Err(Error::Msg(text)) if text == "Response status is not Ok: 13"));
}

#[test]
fn an_oversized_response_is_refused() {
    let mut net = Net::new(Peer::new(Host::Tl(ServerTL::new()), 1, Some(b"too long")));
    let mut client = client();
    client.set_max_buffer_size(7);
    let result = net.handle_message(&mut client, 5, b"x");
    assert!(matches!(result, Err(Error::BufferOverflow { expected: 8, limit: 7 })));

    let mut net = Net::new(Peer::new(Host::Tls(ServerTLS::new()), 1, Some(b"too long")));
    let mut client = ClientTLS::new("server:1".to_string(), Duration::zero());
    client.set_max_buffer_size(7);
    let machine = client.handle_message(5, b"x", false);
    let result = net.message(&mut client.session, machine);
    assert!(matches!(
        result,
        Err(Error::Msg(text)) if text == "Data size is more then max buffer size"
    ));
}

#[test]
fn a_response_at_the_limit_is_taken() {
    let mut net = Net::new(Peer::new(Host::Tl(ServerTL::new()), 1, Some(b"just fit")));
    let mut client = client();
    client.set_max_buffer_size(8);
    assert_eq!(net.handle_message(&mut client, 5, b"").unwrap(), b"just fit");
    assert_eq!(net.peer.served, [(5, Vec::new())]);
}

#[test]
fn an_empty_response_is_a_status_alone() {
    for reply in [None, Some(b"".as_slice())] {
        let mut net = Net::new(Peer::new(Host::Tl(ServerTL::new()), 1, reply));
        let mut client = client();
        client.set_keep_alive(true);
        assert_eq!(net.handle_message(&mut client, 5, b"x").unwrap(), b"");
        assert_eq!(net.handle_message(&mut client, 6, b"y").unwrap(), b"");
        assert_eq!(net.peer.served, [(5, b"x".to_vec()), (6, b"y".to_vec())]);
        assert!(net.peer.error.is_none());
        assert_eq!(net.dials, 1);
        assert_eq!(net.now, 20);
        assert!(net.link.up.is_empty() && net.link.down.is_empty());
    }
}

#[test]
fn an_empty_response_reaches_the_tls_client() {
    let mut net = Net::new(Peer::new(Host::Tls(ServerTLS::new()), 1, None));
    let mut client = ClientTLS::new("server:1".to_string(), Duration::zero());
    let machine = client.handle_message(5, b"x", false);
    assert_eq!(net.message(&mut client.session, machine).unwrap(), b"");
}

#[test]
fn an_error_status_needs_no_payload() {
    let mut net = Net::new(Peer::new(Host::Tl(ServerTL::new()), 5, None));
    let mut client = client();
    let result = net.handle_message(&mut client, 5, b"x");
    assert!(matches!(result, Err(Error::ResponseError { status: 5 })));
}

#[test]
fn a_ping_with_a_payload_never_gets_through() {
    let mut net = Net::new(ok_peer());
    let mut client = client();
    assert!(net.handle_message(&mut client, 0, b"data").is_err());
    assert!(matches!(
        &net.peer.error,
        Some(Error::Protocol(text)) if text == "Ping must have data_size=0"
    ));
    assert!(net.peer.served.is_empty());
    assert!(net.link.down.is_empty());
}

#[test]
fn a_lost_server_stops_the_pings() {
    let mut net = Net::new(ok_peer());
    let mut client = kept_client(100);
    let machine = client.connect();
    net.connect(&mut client.session, machine).unwrap();
    net.peer.duty = Duty::Closed;
    net.sleep(&mut client.session, 1000);
    assert!(!net.connected);
    assert!(client.session.ping_state.should_stop);
    assert!(net.tasks.is_empty());
    assert_eq!(net.now, 1000);
}
