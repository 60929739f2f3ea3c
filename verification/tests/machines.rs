//! Single machines, advanced by hand.

use wagonet::connect::{Connect, ConnectAction, ConnectEvent, ConnectStage, Security};
use wagonet::disconnect::{Disconnect, DisconnectAction, DisconnectEvent};
use wagonet::exchange::{Exchange, ExchangeStage, Transport};
use wagonet::message::{HandleMessage, MessageAction, MessageEvent};
use wagonet::ping::{
    receive_ping_response_impl, send_ping_request_impl, PingAction, PingConfig, PingEvent,
    PingResponse, PingState, PingStep, PingTask,
};
use wagonet::server::{ReadCommand, ReceiveData, SendData};
use wagonet::session::Session;
use wagonet::transport::{Action, Event, Progress};
use wagonet::{ClientTL, ClientTLS, Duration, Error, ServerTL, ServerTLS, TimeoutConfig};

fn secs(span: u64) -> Duration {
    Duration::from_secs(span)
}

fn exchange(transport: Transport, stage: ExchangeStage) -> Exchange {
    Exchange {
        transport,
        command: 3,
        data: b"abc".to_vec(),
        command_has_answer: true,
        status_owed: false,
        max_buffer_size: 100,
        timeouts: TimeoutConfig {
            write: secs(1),
            read_header: secs(2),
            read_data: secs(3),
            ..Default::default()
        },
        stage,
    }
}

fn result<M, T>(progress: Progress<M, T>) -> Result<T, Error> {
    match progress {
        Progress::Finished(result) => result,
        Progress::Pending(_) => panic!("still at work"),
    }
}

fn pending<M, T>(progress: Progress<M, T>) -> M {
    match progress {
        Progress::Pending(machine) => machine,
        Progress::Finished(_) => panic!("at its end"),
    }
}

fn failure<M, T>(progress: Progress<M, T>) -> String {
    match result(progress) {
        Ok(_) => panic!("it went well"),
        Err(error) => error.to_string(),
    }
}

const STAGES: [ExchangeStage; 12] = [
    ExchangeStage::RequestHeader,
    ExchangeStage::FlushRequestHeader,
    ExchangeStage::RequestAnswer,
    ExchangeStage::RequestData,
    ExchangeStage::FlushRequestData,
    ExchangeStage::ResponseStatus,
    ExchangeStage::ResponseSize,
    ExchangeStage::Acknowledge { data_size: 4 },
    ExchangeStage::FlushAcknowledge { data_size: 4 },
    ExchangeStage::ResponseData { data_size: 4 },
    ExchangeStage::ResponseSizeRest { first: 0 },
    ExchangeStage::Quiet,
];

#[test]
fn every_failure_ends_an_exchange() {
    for transport in [Transport::Tcp, Transport::Tls] {
        for stage in STAGES {
            let end = exchange(transport, stage).advance(Event::Failed("gone".to_string()));
            assert!(matches!(result(end), Err(Error::Io(text)) if text == "gone"));
        }
    }
}

/// Where a timeout that is no error leaves an exchange.
fn unhurried(stage: ExchangeStage) -> ExchangeStage {
    match stage {
        ExchangeStage::Quiet => ExchangeStage::RequestHeader,
        ExchangeStage::ResponseSize => ExchangeStage::Acknowledge { data_size: 0 },
        stage => stage,
    }
}

#[test]
fn timeouts_of_a_tcp_exchange() {
    let texts = [
        Some("Sending request header"),
        None,
        Some("Waiting for response header"),
        Some("Sending message data"),
        None,
        Some("Waiting for response header"),
        None,
        Some("Sending response header"),
        None,
        Some("Waiting for message data"),
        Some("Waiting for response header"),
        None,
    ];
    for (stage, text) in STAGES.into_iter().zip(texts) {
        match (exchange(Transport::Tcp, stage).advance(Event::TimedOut), text) {
            (Progress::Finished(Err(Error::Timeout(said))), Some(text)) => assert_eq!(said, text),
            (Progress::Pending(machine), None) => assert_eq!(machine.stage, unhurried(stage)),
            _ => panic!("unexpected end of {:?}", stage),
        }
    }
}

#[test]
fn timeouts_of_a_tls_exchange() {
    let texts = [
        Some("Timeout sending request header"),
        None,
        Some("Timeout waiting for response header"),
        Some("Timeout sending message data"),
        None,
        Some("Timeout waiting for response header"),
        None,
        Some("Timeout sending response header"),
        None,
        Some("Timeout waiting for message data"),
        Some("Timeout waiting for response header"),
        None,
    ];
    for (stage, text) in STAGES.into_iter().zip(texts) {
        match (exchange(Transport::Tls, stage).advance(Event::TimedOut), text) {
            (Progress::Finished(Err(Error::Msg(said))), Some(text)) => assert_eq!(said, text),
            (Progress::Pending(machine), None) => assert_eq!(machine.stage, unhurried(stage)),
            _ => panic!("unexpected end of {:?}", stage),
        }
    }
}

#[test]
fn actions_of_an_exchange() {
    let action = |stage| exchange(Transport::Tcp, stage).action();
    assert!(matches!(
        action(STAGES[0]),
        Action::Write { bytes, timeout } if bytes == [0, 0, 0, 3, 0, 0, 0, 3]
            && timeout == Some(secs(1))
    ));
    assert!(matches!(action(STAGES[1]), Action::Flush));
    assert!(matches!(
        action(STAGES[2]),
        Action::Read { len: 1, timeout } if timeout == Some(secs(2))
    ));
    assert!(matches!(
        action(STAGES[3]),
        Action::Write { bytes, timeout } if bytes == b"abc" && timeout == Some(secs(1))
    ));
    assert!(matches!(
        action(STAGES[5]),
        Action::Read { len: 1, timeout } if timeout == Some(secs(2))
    ));
    assert!(matches!(
        action(STAGES[6]),
        Action::Read { len: 1, timeout } if timeout == Some(Duration::from_millis(10))
    ));
    assert!(matches!(
        action(STAGES[10]),
        Action::Read { len: 3, timeout } if timeout == Some(secs(2))
    ));
    assert!(matches!(
        action(STAGES[11]),
        Action::Read { len: 1, timeout } if timeout == Some(Duration::zero())
    ));
    assert!(matches!(
        action(STAGES[7]),
        Action::Write { bytes, timeout } if bytes == [1] && timeout == Some(secs(1))
    ));
    assert!(matches!(
        action(STAGES[9]),
        Action::Read { len: 4, timeout } if timeout == Some(secs(3))
    ));
}

#[test]
fn a_size_is_awaited_only_with_an_answer() {
    let machine = exchange(Transport::Tcp, ExchangeStage::ResponseStatus);
    let machine = pending(machine.advance(Event::Received(vec![1])));
    assert_eq!(machine.stage, ExchangeStage::ResponseSize);
    let machine = pending(machine.advance(Event::Received(vec![0])));
    assert_eq!(machine.stage, ExchangeStage::ResponseSizeRest { first: 0 });
    let machine = pending(machine.advance(Event::Received(vec![0, 0, 9])));
    assert_eq!(machine.stage, ExchangeStage::Acknowledge { data_size: 9 });

    let mut silent = exchange(Transport::Tcp, ExchangeStage::FlushRequestData);
    silent.command_has_answer = false;
    let silent = pending(silent.advance(Event::Completed));
    assert_eq!(silent.stage, ExchangeStage::Acknowledge { data_size: 0 });
    let silent = pending(silent.advance(Event::Completed));
    assert_eq!(result(silent.advance(Event::Completed)).unwrap(), b"");
}

#[test]
fn the_answer_to_a_request_header_is_not_judged() {
    let machine = exchange(Transport::Tcp, ExchangeStage::RequestAnswer);
    let machine = pending(machine.advance(Event::Received(vec![7])));
    assert_eq!(machine.stage, ExchangeStage::RequestData);
}

#[test]
fn an_owed_status_comes_before_the_answer() {
    let mut machine = exchange(Transport::Tcp, ExchangeStage::RequestAnswer);
    machine.status_owed = true;
    assert!(matches!(machine.action(), Action::Read { len: 2, .. }));
    let machine = pending(machine.advance(Event::Received(vec![9, 1])));
    assert_eq!(machine.stage, ExchangeStage::RequestData);

    let mut machine = exchange(Transport::Tcp, ExchangeStage::Quiet);
    machine.status_owed = true;
    let machine = pending(machine.advance(Event::Received(vec![9])));
    assert!(!machine.status_owed);
    assert_eq!(machine.stage, ExchangeStage::Quiet);
    assert!(matches!(
        result(machine.advance(Event::Received(vec![9]))),
        Err(Error::Protocol(text)) if text == "Unexpected data on the connection"
    ));
}

#[test]
fn an_owed_status_comes_before_the_answer_to_a_ping() {
    let response = PingResponse { status_owed: true, ..receive_ping_response_impl(secs(7)) };
    assert!(matches!(response.action(), Action::Read { len: 2, .. }));
    assert!(matches!(
        result(response.advance(Event::Received(vec![1, 3]))),
        Err(Error::ResponseError { status: 3 })
    ));
    let response = pending(response.advance(Event::Received(vec![3, 1])));
    assert!(result(response.advance(Event::TimedOut)).is_ok());
}

#[test]
fn a_status_is_judged_before_a_size() {
    let machine = exchange(Transport::Tcp, ExchangeStage::ResponseStatus);
    let end = machine.advance(Event::Received(vec![2]));
    assert!(matches!(result(end), Err(Error::ResponseError { status: 2 })));
}

#[test]
fn a_short_header_is_a_protocol_error() {
    let machine = exchange(Transport::Tcp, ExchangeStage::ResponseSizeRest { first: 0 });
    let end = machine.advance(Event::Received(vec![0]));
    assert!(matches!(result(end), Err(Error::Protocol(_))));
}

#[test]
fn events_out_of_place_change_nothing() {
    let machine = exchange(Transport::Tcp, ExchangeStage::RequestHeader);
    let machine = pending(machine.advance(Event::Received(vec![1])));
    assert_eq!(machine.stage, ExchangeStage::RequestHeader);
    let machine = pending(ServerTL::new().read_command().advance(Event::Completed));
    assert!(matches!(machine.action(), Action::Read { len: 8, .. }));
}

fn answered(header: [u8; 8], limit: usize) -> ReadCommand {
    let mut server = ServerTL::new();
    server.set_max_buffer_size(limit);
    pending(server.read_command().advance(Event::Received(header.to_vec())))
}

#[test]
fn a_refused_request_is_answered() {
    let machine = answered([0, 0, 0, 9, 0, 0, 0, 6], 5);
    assert!(matches!(machine.action(), Action::Write { bytes, .. } if bytes == [7]));
    let machine = pending(machine.advance(Event::Completed));
    assert!(matches!(machine.action(), Action::Flush));
    assert_eq!(
        failure(machine.advance(Event::Completed)),
        "Data size exceeds maximum allowed buffer size"
    );
}

#[test]
fn a_ping_passes_the_smallest_limit() {
    let machine = answered([0; 8], 1);
    assert!(matches!(machine.action(), Action::Write { bytes, .. } if bytes == [1]));
}

fn rejected(machine: ReadCommand) {
    let end = machine.advance(Event::Received(vec![0, 0, 0, 0, 0, 0, 0, 5]));
    assert!(matches!(
        result(end),
        Err(Error::Protocol(text)) if text == "Ping must have data_size=0"
    ));
}

#[test]
fn server_tl_ping_invalid_data_size() {
    rejected(ServerTL::new().read_command());
}

#[test]
fn server_tls_ping_invalid_data_size() {
    rejected(ServerTLS::new().read_command());
}

#[test]
fn timeouts_of_a_server() {
    let server = ServerTLS::new();
    assert_eq!(
        failure(server.read_command().advance(Event::TimedOut)),
        "Timeout waiting for request header"
    );
    assert_eq!(
        failure(answered([0; 8], 1).advance(Event::TimedOut)),
        "Sending response header timeout"
    );
    let receive: ReceiveData = server.receive_data(4).unwrap();
    assert_eq!(failure(receive.advance(Event::TimedOut)), "Timeout waiting for data");
    let send: SendData = server.send_data(1, Some(b"ab"));
    assert_eq!(failure(send.advance(Event::TimedOut)), "Sending response header timeout");
    let flushing = pending(server.send_data(1, Some(b"ab")).advance(Event::Completed));
    let waiting = pending(flushing.advance(Event::Completed));
    assert!(matches!(waiting.action(), Action::Read { len: 1, .. }));
    assert_eq!(failure(waiting.advance(Event::TimedOut)), "Timeout waiting for response header");
}

fn acknowledged(payload: Option<&[u8]>, status: u8) -> Progress<SendData, ()> {
    let machine = ServerTL::new().send_data(1, payload);
    let machine = pending(machine.advance(Event::Completed));
    let machine = pending(machine.advance(Event::Completed));
    machine.advance(Event::Received(vec![status]))
}

#[test]
fn a_response_needs_its_acknowledgement() {
    assert_eq!(failure(acknowledged(Some(b"ab"), 2)), "Receiving response status is not OK");
    let machine = pending(acknowledged(Some(b"ab"), 1));
    assert!(matches!(machine.action(), Action::Write { bytes, .. } if bytes == b"ab"));
    assert_eq!(failure(machine.advance(Event::TimedOut)), "Timeout sending data");
    let machine = pending(acknowledged(None, 1));
    assert!(matches!(machine.action(), Action::Flush));
    assert!(result(machine.advance(Event::Completed)).is_ok());
}

#[test]
fn an_oversized_payload_is_not_read() {
    let mut server = ServerTL::new();
    server.set_max_buffer_size(3);
    assert!(server.receive_data(3).is_ok());
    assert!(matches!(
        server.receive_data(4),
        Err(Error::Msg(text)) if text == "Invalid data size"
    ));
    server.set_max_buffer_size(0);
    assert_eq!(server.max_buffer_size, 10_485_760);
}

#[test]
fn a_ping_request() {
    let machine = send_ping_request_impl();
    assert!(matches!(
        machine.action(),
        Action::Write { bytes, timeout: None } if bytes == [0; 8]
    ));
    let machine = pending(machine.advance(Event::Completed));
    assert!(matches!(machine.action(), Action::Flush));
    assert!(result(machine.advance(Event::Completed)).is_ok());
    let end = send_ping_request_impl().advance(Event::Failed("gone".to_string()));
    assert!(matches!(result(end), Err(Error::Io(text)) if text == "gone"));
}

fn greeted() -> PingResponse {
    let machine = receive_ping_response_impl(secs(7));
    assert!(matches!(
        machine.action(),
        Action::Read { len: 1, timeout } if timeout == Some(secs(7))
    ));
    pending(machine.advance(Event::Received(vec![1])))
}

#[test]
fn answers_to_a_ping() {
    let machine = greeted();
    assert!(matches!(
        machine.action(),
        Action::Read { len: 4, timeout } if timeout == Some(Duration::from_millis(10))
    ));
    assert!(result(machine.advance(Event::TimedOut)).is_ok());
    assert!(result(greeted().advance(Event::Received(vec![0; 4]))).is_ok());
    let machine = pending(greeted().advance(Event::Received(vec![0, 0, 1, 2])));
    assert!(matches!(machine.action(), Action::Read { len: 258, timeout: None }));
    assert!(result(machine.advance(Event::Received(vec![0; 258]))).is_ok());
}

#[test]
fn bad_answers_to_a_ping() {
    let machine = receive_ping_response_impl(secs(7));
    assert!(matches!(
        result(machine.advance(Event::TimedOut)),
        Err(Error::Timeout(text)) if text == "Ping response header timeout"
    ));
    assert!(matches!(
        result(machine.advance(Event::Received(vec![7]))),
        Err(Error::ResponseError { status: 7 })
    ));
    assert!(matches!(
        result(greeted().advance(Event::Failed("gone".to_string()))),
        Err(Error::Io(_))
    ));
}

fn ping_state(interval: Duration) -> PingState {
    PingState::new(PingConfig { interval, enabled: true }, TimeoutConfig::default(), secs(100))
}

#[test]
fn ping_defaults() {
    let config = PingConfig::default();
    assert_eq!(config.interval, secs(30));
    assert!(config.enabled);
}

#[test]
fn activity() {
    let mut state = ping_state(secs(30));
    assert_eq!(state.elapsed_since_activity(secs(130)), secs(30));
    assert_eq!(state.elapsed_since_activity(secs(99)), Duration::zero());
    state.touch_activity(secs(120));
    assert_eq!(state.elapsed_since_activity(secs(130)), secs(10));
    assert_eq!(state.interval(), secs(30));
    assert!(state.is_enabled());
}

fn pause(task: &PingTask) -> Duration {
    match task.action() {
        PingAction::Sleep(pause) => pause,
        _ => panic!("not asleep"),
    }
}

#[test]
fn starting_and_stopping_the_task() {
    let mut state = ping_state(secs(30));
    assert!(state.stop_ping_task().is_none());
    assert!(state.should_stop);
    let task = state.start_ping_task().unwrap();
    assert_eq!(pause(&task), Duration::from_millis(7500));
    assert!(state.running && !state.should_stop);
    assert_eq!(state.stop_ping_task(), Some(secs(5)));
    assert!(!state.running && state.should_stop);
    state.config.enabled = false;
    assert!(state.start_ping_task().is_none());
    assert!(state.should_stop);
    let mut hasty = ping_state(Duration::from_millis(200));
    assert_eq!(pause(&hasty.start_ping_task().unwrap()), Duration::from_millis(100));
}

fn next(step: PingStep<PingTask>) -> PingTask {
    match step {
        PingStep::Continue(task) => task,
        PingStep::Stop { .. } => panic!("the task has ended"),
    }
}

#[test]
fn the_task_step_by_step() {
    let mut state = ping_state(secs(30));
    let task = state.start_ping_task().unwrap();
    let task = next(task.advance(&mut state, secs(129), PingEvent::Woke));
    assert_eq!(pause(&task), Duration::from_millis(7500));
    let task = next(task.advance(&mut state, secs(130), PingEvent::Woke));
    assert!(matches!(task.action(), PingAction::Claim));
    let task = next(task.advance(&mut state, secs(130), PingEvent::Claimed(false)));
    assert_eq!(pause(&task), Duration::from_millis(7500));
    let task = next(task.advance(&mut state, secs(140), PingEvent::Woke));
    let task = next(task.advance(&mut state, secs(140), PingEvent::Claimed(true)));
    assert!(matches!(task.action(), PingAction::Open));
    let task = next(task.advance(&mut state, secs(140), PingEvent::Opened(true)));
    assert!(matches!(task.action(), PingAction::Io(Action::Write { .. })));
    let task = next(task.advance(&mut state, secs(140), PingEvent::Io(Event::Completed)));
    let task = next(task.advance(&mut state, secs(140), PingEvent::Io(Event::Completed)));
    assert!(matches!(
        task.action(),
        PingAction::Io(Action::Read { len: 1, timeout }) if timeout == Some(secs(60))
    ));
    let task = next(task.advance(&mut state, secs(141), PingEvent::Io(Event::Received(vec![1]))));
    assert_eq!(state.last_activity, secs(100));
    let task = next(task.advance(&mut state, secs(142), PingEvent::Io(Event::TimedOut)));
    assert_eq!(state.last_activity, secs(142));
    assert_eq!(pause(&task), Duration::from_millis(7500));
    state.should_stop = true;
    let end = task.advance(&mut state, secs(200), PingEvent::Woke);
    assert!(matches!(end, PingStep::Stop { drop_stream: false }));
}

#[test]
fn a_task_without_a_stream_ends() {
    let mut state = ping_state(secs(30));
    let task = PingTask::Opening;
    let end = task.advance(&mut state, secs(140), PingEvent::Opened(false));
    assert!(matches!(end, PingStep::Stop { drop_stream: false }));
    assert!(state.should_stop);
}

#[test]
fn a_failed_ping_drops_the_stream() {
    let mut state = ping_state(secs(30));
    let task = PingTask::Receiving(receive_ping_response_impl(secs(1)));
    let end = task.advance(&mut state, secs(140), PingEvent::Io(Event::Received(vec![3])));
    assert!(matches!(end, PingStep::Stop { drop_stream: true }));
    assert!(state.should_stop);
    let mut state = ping_state(secs(30));
    let task = PingTask::Sending(send_ping_request_impl());
    let event = PingEvent::Io(Event::Failed("gone".to_string()));
    assert!(matches!(
        task.advance(&mut state, secs(140), event),
        PingStep::Stop { drop_stream: true }
    ));
}

fn session() -> Session {
    Session::new("server:1".to_string(), secs(100))
}

#[test]
fn session_defaults() {
    let session = session();
    assert_eq!(session.address, "server:1");
    assert!(session.command_has_answer);
    assert_eq!(session.max_buffer_size, 10_485_760);
    assert!(!session.keep_alive);
    assert_eq!(session.timeout_config.ping_interval, secs(30));
    assert_eq!(session.ping_state.config.interval, secs(30));
    assert!(session.ping_state.config.enabled);
    assert_eq!(session.ping_state.last_activity, secs(100));
}

#[test]
fn settings_of_a_session() {
    let mut session = session();
    session.set_max_buffer_size(0);
    assert_eq!(session.max_buffer_size, 10_485_760);
    session.set_max_buffer_size(12);
    assert_eq!(session.max_buffer_size, 12);
    session.set_command_has_answer(false);
    assert!(!session.command_has_answer);
    assert!(session.set_keep_alive(false).is_none());
    assert!(!session.ping_state.config.enabled);
    assert!(session.set_keep_alive(true).is_none());
    assert!(session.ping_state.config.enabled);
    let duty = session.set_keep_alive(false).unwrap();
    assert!(duty.patience.is_none());
    assert!(session.ping_state.should_stop);
}

#[test]
fn time_limits_of_a_session() {
    let mut session = session();
    session.set_keep_alive(true);
    let limits = TimeoutConfig {
        read_header: secs(10),
        ping_interval: secs(30),
        ..Default::default()
    };
    session.set_timeout_config(limits).unwrap();
    assert_eq!(session.timeout_config.ping_interval, secs(9));
    assert_eq!(session.ping_state.config.interval, secs(9));
    assert_eq!(session.ping_state.timeout_config.read_header, secs(10));
    assert!(session.ping_state.config.enabled);

    let limits = TimeoutConfig { ping_interval: Duration::zero(), ..Default::default() };
    session.set_timeout_config(limits).unwrap();
    assert!(!session.ping_state.config.enabled);
    session.set_keep_alive(true);
    assert!(!session.ping_state.config.enabled);
}

#[test]
fn time_limits_without_time_are_refused() {
    let mut session = session();
    let limits = TimeoutConfig { read_header: Duration::zero(), ..Default::default() };
    let text = session.set_timeout_config(limits).unwrap_err().to_string();
    assert_eq!(
        text,
        "Invalid config: TimeoutConfig invariant violated: ping_interval (0ns) >= \
         read_header (0ns). Pings may not prevent server-side connection timeout."
    );
    assert_eq!(session.timeout_config.read_header, secs(60));
}

#[test]
fn settings_can_be_made_in_either_order() {
    let limits = TimeoutConfig { ping_interval: secs(3), ..Default::default() };
    for enabled in [false, true] {
        let mut one = session();
        one.set_timeout_config(limits).unwrap();
        one.set_keep_alive(enabled);
        let mut other = session();
        other.set_keep_alive(enabled);
        other.set_timeout_config(limits).unwrap();
        assert_eq!(format!("{:?}", one), format!("{:?}", other));
    }
}

fn tls() -> Security {
    Security::Tls { accept_invalid_certs: false, domain: "example.org".to_string() }
}

#[test]
fn tls_failures_end_a_connect() {
    let mut session = session();
    let end = Connect::begin(tls())
        .advance(&mut session, ConnectEvent::Failed("no roots".to_string()));
    assert!(matches!(result(end), Err(Error::Tls(text)) if text == "no roots"));
    let machine = Connect { security: tls(), stage: ConnectStage::Handshake };
    assert!(matches!(
        machine.action(&session),
        ConnectAction::Handshake { domain } if domain == "example.org"
    ));
    let end = machine.advance(&mut session, ConnectEvent::Failed("bad name".to_string()));
    assert!(matches!(result(end), Err(Error::Tls(text)) if text == "bad name"));
}

#[test]
fn a_slow_server_is_dialled_again() {
    let mut session = session();
    let machine = pending(Connect::begin(Security::Plain).advance(&mut session, ConnectEvent::TimedOut));
    assert!(matches!(
        machine.action(&session),
        ConnectAction::Pause(pause) if pause == secs(1)
    ));
    let machine = pending(machine.advance(&mut session, ConnectEvent::Completed));
    assert!(matches!(machine.stage, ConnectStage::Dial { tries: 1 }));
}

#[test]
fn no_ping_task_where_pings_are_disabled() {
    let mut session = session();
    session.set_keep_alive(true);
    session
        .set_timeout_config(TimeoutConfig {
            ping_interval: Duration::zero(),
            ..Default::default()
        })
        .unwrap();
    let machine = Connect { security: Security::Plain, stage: ConnectStage::Install };
    assert!(result(machine.advance(&mut session, ConnectEvent::Completed)).is_ok());
    assert!(!session.ping_state.running);
}

#[test]
fn a_message_without_a_connection() {
    for (client_tls, text) in [(false, "Not connected"), (true, "Not connected")] {
        let mut session = session();
        session.set_keep_alive(true);
        let security = if client_tls { tls() } else { Security::Plain };
        let machine = HandleMessage::begin(&session, security, 1, b"x", true, true);
        assert!(matches!(machine.action(&session), MessageAction::Claim));
        let end =
            machine.advance(&mut session, secs(1), MessageEvent::Claimed { connected: false });
        match (result(end), client_tls) {
            (Err(Error::NotConnected), false) => {}
            (Err(Error::Msg(said)), true) => assert_eq!(said, text),
            _ => panic!("unexpected end"),
        }
    }
}

#[test]
fn a_failed_exchange_is_abandoned_first() {
    let mut session = session();
    session.set_keep_alive(true);
    session.ping_state.start_ping_task();
    let machine = HandleMessage::begin(&session, Security::Plain, 1, b"x", true, true);
    let machine = pending(machine.advance(
        &mut session,
        secs(1),
        MessageEvent::Claimed { connected: true },
    ));
    let event = MessageEvent::Io(Event::Failed("gone".to_string()));
    let machine = pending(machine.advance(&mut session, secs(1), event));
    assert!(matches!(
        machine.action(&session),
        MessageAction::Abandon { patience } if patience == Some(secs(5))
    ));
    assert!(session.ping_state.should_stop && !session.ping_state.running);
    let end = machine.advance(&mut session, secs(1), MessageEvent::Abandoned);
    assert!(matches!(result(end), Err(Error::Io(text)) if text == "gone"));
}

#[test]
fn closing_a_connection() {
    let mut client = ClientTL::new("server:1".to_string(), secs(1));
    let machine = client.disconnect();
    assert!(matches!(machine.action(), DisconnectAction::Open));
    let machine = pending(machine.advance(DisconnectEvent::Opened { connected: true }));
    assert!(matches!(machine.action(), DisconnectAction::Shutdown));
    let machine = pending(machine.advance(DisconnectEvent::Failed("gone".to_string())));
    assert!(matches!(machine.action(), DisconnectAction::Clear));
    assert!(matches!(
        result(machine.advance(DisconnectEvent::Completed)),
        Err(Error::Io(text)) if text == "gone"
    ));
}

#[test]
fn closing_without_a_connection() {
    let mut client = ClientTLS::new("server:1".to_string(), secs(1));
    client.session.ping_state.start_ping_task();
    let machine: Disconnect = client.disconnect();
    assert!(matches!(
        machine.action(),
        DisconnectAction::Collect { patience } if patience == secs(5)
    ));
    let machine = pending(machine.advance(DisconnectEvent::Completed));
    let machine = pending(machine.advance(DisconnectEvent::Opened { connected: false }));
    assert!(matches!(machine.action(), DisconnectAction::Clear));
    assert!(result(machine.advance(DisconnectEvent::Completed)).is_ok());
}
