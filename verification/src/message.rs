//! Handling a message: connecting where needed, and one exchange with the server.

use vstd::arithmetic::power::pow;
use vstd::prelude::*;
use vstd::slice::slice_to_vec;

use crate::connect::{Connect, ConnectAction, ConnectEvent, Security};
use crate::duration::Duration;
use crate::error::Error;
use crate::exchange::{size_bytes_are_low_bytes, Exchange, ExchangeStage, Transport};
use crate::ping::{
    PingEvent, PingRequest, PingResponse, PingResponseStage, PingState, PingStep, PingTask,
};
use crate::protocol_structs::STATUS_OK;
use crate::request_header::{request_header_layout, RequestHeader};
use crate::response_header::ResponseHeader;
use crate::session::Session;
use crate::transport::{size_field, span, Action, Event, Progress};

verus! {

/// Sends one request and receives its response, on the connection at hand or on a new
/// one. A request is sent at most once: a failure is reported, and the next message
/// connects again.
#[derive(Debug)]
pub enum HandleMessage<B = Vec<u8>, S = String, D = Duration> {
    /// A connection is being established.
    Connecting { connect: Connect<S, D>, exchange: Exchange<B> },
    /// The in-flight lock and the stream are to be taken.
    Claiming(Exchange<B>),
    /// Both are held, and the exchange is under way.
    Exchanging(Exchange<B>),
    /// The exchange failed. The stream is to be dropped and the ping task collected.
    Abandoning { error: Error<S>, patience: Option<D> },
}

/// What handling a message asks for.
#[derive(Debug)]
pub enum MessageAction<B = Vec<u8>, S = String, D = Duration> {
    /// A step towards a connection.
    Connect(ConnectAction<S, D>),
    /// Take the in-flight lock, so that no ping is sent meanwhile, and the stream.
    Claim,
    /// Perform I/O on the stream.
    Io(Action<B, D>),
    /// Drop the stream, and wait for the ping task where there is one.
    Abandon { patience: Option<D> },
}

/// What came of it.
#[derive(Debug)]
pub enum MessageEvent<B = Vec<u8>, S = String> {
    /// What came of the step towards a connection.
    Connect(ConnectEvent<S>),
    /// The locks are held; whether there is a stream.
    Claimed { connected: bool },
    /// What came of the I/O.
    Io(Event<B, S>),
    /// The stream was dropped and the ping task waited for.
    Abandoned,
}

impl View for HandleMessage {
    type V = HandleMessage<Seq<u8>, Seq<char>, nat>;

    open spec fn view(&self) -> HandleMessage<Seq<u8>, Seq<char>, nat> {
        match self {
            HandleMessage::Connecting { connect, exchange } => HandleMessage::Connecting {
                connect: connect@,
                exchange: exchange@,
            },
            HandleMessage::Claiming(exchange) => HandleMessage::Claiming(exchange@),
            HandleMessage::Exchanging(exchange) => HandleMessage::Exchanging(exchange@),
            HandleMessage::Abandoning { error, patience } => HandleMessage::Abandoning {
                error: error@,
                patience: span(*patience),
            },
        }
    }
}

impl View for MessageAction {
    type V = MessageAction<Seq<u8>, Seq<char>, nat>;

    open spec fn view(&self) -> MessageAction<Seq<u8>, Seq<char>, nat> {
        match self {
            MessageAction::Connect(action) => MessageAction::Connect(action@),
            MessageAction::Claim => MessageAction::Claim,
            MessageAction::Io(action) => MessageAction::Io(action@),
            MessageAction::Abandon { patience } => MessageAction::Abandon {
                patience: span(*patience),
            },
        }
    }
}

impl View for MessageEvent {
    type V = MessageEvent<Seq<u8>, Seq<char>>;

    open spec fn view(&self) -> MessageEvent<Seq<u8>, Seq<char>> {
        match self {
            MessageEvent::Connect(event) => MessageEvent::Connect(event@),
            MessageEvent::Claimed { connected } => MessageEvent::Claimed { connected: *connected },
            MessageEvent::Io(event) => MessageEvent::Io(event@),
            MessageEvent::Abandoned => MessageEvent::Abandoned,
        }
    }
}

/// The exchange of a message, before its first byte. On a connection that was used before
/// it begins with a look at what is left there.
pub open spec fn first_exchange(
    session: Session,
    security: Security<Seq<char>>,
    command: u32,
    data: Seq<u8>,
    command_has_answer: bool,
    connected: bool,
) -> Exchange<Seq<u8>> {
    Exchange {
        transport: match security {
            Security::Plain => Transport::Tcp,
            Security::Tls { .. } => Transport::Tls,
        },
        command,
        data,
        command_has_answer,
        status_owed: false,
        max_buffer_size: session.max_buffer_size,
        timeouts: session.timeout_config,
        stage: if session.keep_alive && connected {
            ExchangeStage::Quiet
        } else {
            ExchangeStage::RequestHeader
        },
    }
}

/// The exchange as it begins on the stream of the session: what is owed there becomes its
/// business.
pub open spec fn claimed_exchange(
    session: Session,
    exchange: Exchange<Seq<u8>>,
) -> Exchange<Seq<u8>> {
    Exchange { status_owed: session.ping_state.status_owed, ..exchange }
}

impl HandleMessage<Seq<u8>, Seq<char>, nat> {
    /// The beginning: the connection at hand is used where connections are kept and
    /// there is one; else one is established.
    pub open spec fn opening(
        session: Session,
        security: Security<Seq<char>>,
        exchange: Exchange<Seq<u8>>,
        connected: bool,
    ) -> HandleMessage<Seq<u8>, Seq<char>, nat> {
        if session.keep_alive && connected {
            HandleMessage::Claiming(exchange)
        } else {
            HandleMessage::Connecting { connect: Connect::opening(security), exchange }
        }
    }

    /// What is due.
    pub open spec fn due(self, session: Session) -> MessageAction<Seq<u8>, Seq<char>, nat> {
        match self {
            HandleMessage::Connecting { connect, .. } => MessageAction::Connect(
                connect.due(session),
            ),
            HandleMessage::Claiming(_) => MessageAction::Claim,
            HandleMessage::Exchanging(exchange) => MessageAction::Io(exchange.due()),
            HandleMessage::Abandoning { patience, .. } => MessageAction::Abandon { patience },
        }
    }

    /// Where the machine stands after `event`. An event that does not answer what is due
    /// changes nothing.
    pub open spec fn after(
        self,
        session: Session,
        event: MessageEvent<Seq<u8>, Seq<char>>,
    ) -> Progress<HandleMessage<Seq<u8>, Seq<char>, nat>, Seq<u8>, Seq<char>> {
        match (self, event) {
            (
                HandleMessage::Connecting { connect, exchange },
                MessageEvent::Connect(step),
            ) => match connect.after(session, step) {
                Progress::Pending(connect) => Progress::Pending(
                    HandleMessage::Connecting { connect, exchange },
                ),
                Progress::Finished(Ok(_)) => Progress::Pending(HandleMessage::Claiming(exchange)),
                Progress::Finished(Err(error)) => Progress::Finished(Err(error)),
            },
            (
                HandleMessage::Claiming(exchange),
                MessageEvent::Claimed { connected },
            ) => if connected {
                Progress::Pending(HandleMessage::Exchanging(claimed_exchange(session, exchange)))
            } else {
                Progress::Finished(Err(exchange.transport.unconnected()))
            },
            (HandleMessage::Exchanging(exchange), MessageEvent::Io(io)) => match exchange.after(
                io,
            ) {
                Progress::Pending(exchange) => Progress::Pending(
                    HandleMessage::Exchanging(exchange),
                ),
                Progress::Finished(Ok(response)) => Progress::Finished(Ok(response)),
                Progress::Finished(Err(error)) => Progress::Pending(
                    HandleMessage::Abandoning { error, patience: session.patience() },
                ),
            },
            (
                HandleMessage::Abandoning { error, .. },
                MessageEvent::Abandoned,
            ) => Progress::Finished(Err(error)),
            _ => Progress::Pending(self),
        }
    }

    /// The ping state after `event`: a finished exchange counts as activity, and leaves its
    /// status owed where it was not waited for; a failed exchange stops the ping task.
    pub open spec fn ping_after(
        self,
        session: Session,
        now: Duration,
        event: MessageEvent<Seq<u8>, Seq<char>>,
    ) -> PingState {
        match (self, event) {
            (
                HandleMessage::Connecting { connect, .. },
                MessageEvent::Connect(step),
            ) => connect.ping_after(session, step),
            (HandleMessage::Exchanging(exchange), MessageEvent::Io(io)) => match exchange.after(
                io,
            ) {
                Progress::Pending(_) => session.ping_state,
                Progress::Finished(Ok(_)) => PingState {
                    last_activity: now,
                    status_owed: !exchange.command_has_answer,
                    ..session.ping_state
                },
                Progress::Finished(Err(_)) => session.ping_state.stopped(),
            },
            _ => session.ping_state,
        }
    }
}

impl HandleMessage {
    /// Begins to handle a message. `connected` says whether there is a stream.
    pub fn begin(
        session: &Session,
        security: Security,
        command: u32,
        request_data: &[u8],
        command_has_answer: bool,
        connected: bool,
    ) -> (machine: HandleMessage)
        ensures
            machine@ == HandleMessage::opening(
                *session,
                security@,
                first_exchange(
                    *session,
                    security@,
                    command,
                    request_data@,
                    command_has_answer,
                    connected,
                ),
                connected,
            ),
            session.keep_alive && connected ==> {
                &&& machine matches HandleMessage::Claiming(exchange)
                &&& exchange.stage is Quiet
                &&& exchange.transport is Tls <==> security is Tls
                &&& exchange.command == command
                &&& exchange.data@ == request_data@
                &&& exchange.command_has_answer == command_has_answer
                &&& exchange.max_buffer_size == session.max_buffer_size
                &&& exchange.timeouts == session.timeout_config
                &&& !exchange.status_owed
            },
            !(session.keep_alive && connected) ==> {
                &&& machine matches HandleMessage::Connecting { connect, exchange }
                &&& connect.security@ == security@
                &&& exchange.stage is RequestHeader
                &&& exchange.transport is Tls <==> security is Tls
                &&& exchange.command == command
                &&& exchange.data@ == request_data@
                &&& exchange.command_has_answer == command_has_answer
                &&& exchange.max_buffer_size == session.max_buffer_size
                &&& exchange.timeouts == session.timeout_config
                &&& !exchange.status_owed
            },
    {
        let transport = match &security {
            Security::Plain => Transport::Tcp,
            Security::Tls { .. } => Transport::Tls,
        };
        let reused = session.keep_alive && connected;
        let exchange = Exchange {
            transport,
            command,
            data: slice_to_vec(request_data),
            command_has_answer,
            status_owed: false,
            max_buffer_size: session.max_buffer_size,
            timeouts: session.timeout_config,
            stage: if reused {
                ExchangeStage::Quiet
            } else {
                ExchangeStage::RequestHeader
            },
        };
        if reused {
            HandleMessage::Claiming(exchange)
        } else {
            HandleMessage::Connecting { connect: Connect::begin(security), exchange }
        }
    }

    /// What is due.
    pub fn action(&self, session: &Session) -> (action: MessageAction)
        ensures
            action@ == self@.due(*session),
    {
        match self {
            HandleMessage::Connecting { connect, .. } => MessageAction::Connect(
                connect.action(session),
            ),
            HandleMessage::Claiming(_) => MessageAction::Claim,
            HandleMessage::Exchanging(exchange) => MessageAction::Io(exchange.action()),
            HandleMessage::Abandoning { patience, .. } => MessageAction::Abandon {
                patience: *patience,
            },
        }
    }

    fn exchanged(
        session: &mut Session,
        now: Duration,
        command_has_answer: bool,
        progress: Progress<Exchange, Vec<u8>>,
    ) -> (next: Progress<HandleMessage, Vec<u8>>)
        ensures
            match progress@ {
                Progress::Pending(exchange) => {
                    &&& next@ == Progress::<
                        HandleMessage<Seq<u8>, Seq<char>, nat>,
                        Seq<u8>,
                        Seq<char>,
                    >::Pending(HandleMessage::Exchanging(exchange))
                    &&& *final(session) == *old(session)
                },
                Progress::Finished(Ok(response)) => {
                    &&& next@ == Progress::<
                        HandleMessage<Seq<u8>, Seq<char>, nat>,
                        Seq<u8>,
                        Seq<char>,
                    >::Finished(Ok(response))
                    &&& *final(session) == old(session).with_ping(
                        (PingState {
                            last_activity: now,
                            status_owed: !command_has_answer,
                            ..old(session).ping_state
                        }),
                    )
                },
                Progress::Finished(Err(error)) => {
                    &&& next@ == Progress::<
                        HandleMessage<Seq<u8>, Seq<char>, nat>,
                        Seq<u8>,
                        Seq<char>,
                    >::Pending(
                        HandleMessage::Abandoning { error, patience: old(session).patience() },
                    )
                    &&& *final(session) == old(session).with_ping(old(session).ping_state.stopped())
                },
            },
    {
        match progress {
            Progress::Pending(exchange) => Progress::Pending(HandleMessage::Exchanging(exchange)),
            Progress::Finished(Ok(response)) => {
                session.ping_state.touch_activity(now);
                session.ping_state.status_owed = !command_has_answer;
                Progress::Finished(Ok(response))
            },
            Progress::Finished(Err(error)) => {
                let patience = session.ping_state.stop_ping_task();
                Progress::Pending(HandleMessage::Abandoning { error, patience })
            },
        }
    }

    /// Takes in what came of what was due, at the time `now`.
    pub fn advance(self, session: &mut Session, now: Duration, event: MessageEvent) -> (progress:
        Progress<HandleMessage, Vec<u8>>)
        ensures
            progress@ == self@.after(*old(session), event@),
            *final(session) == old(session).with_ping(
                self@.ping_after(*old(session), now, event@),
            ),
    {
        match (self, event) {
            (
                HandleMessage::Connecting { connect, exchange },
                MessageEvent::Connect(step),
            ) => match connect.advance(session, step) {
                Progress::Pending(connect) => Progress::Pending(
                    HandleMessage::Connecting { connect, exchange },
                ),
                Progress::Finished(Ok(_)) => Progress::Pending(HandleMessage::Claiming(exchange)),
                Progress::Finished(Err(error)) => Progress::Finished(Err(error)),
            },
            (HandleMessage::Claiming(exchange), MessageEvent::Claimed { connected }) => {
                if connected {
                    let status_owed = session.ping_state.status_owed;
                    Progress::Pending(
                        HandleMessage::Exchanging(Exchange { status_owed, ..exchange }),
                    )
                } else {
                    Progress::Finished(Err(exchange.transport.unconnected_error()))
                }
            },
            (HandleMessage::Exchanging(exchange), MessageEvent::Io(io)) => {
                let command_has_answer = exchange.command_has_answer;
                HandleMessage::exchanged(session, now, command_has_answer, exchange.advance(io))
            },
            (
                HandleMessage::Abandoning { error, .. },
                MessageEvent::Abandoned,
            ) => Progress::Finished(Err(error)),
            (machine, _) => Progress::Pending(machine),
        }
    }
}

impl HandleMessage<Seq<u8>, Seq<char>, nat> {
    /// How often writing the request header is tried in the course of a series of events,
    /// each with its time.
    pub open spec fn requests(
        self,
        session: Session,
        events: Seq<(Duration, MessageEvent<Seq<u8>, Seq<char>>)>,
    ) -> nat
        decreases events.len(),
    {
        if events.len() == 0 {
            0
        } else {
            let (now, event) = events[0];
            let first: nat = match event {
                MessageEvent::Io(io) if self.writes_request() && !(io is Received) => 1,
                _ => 0,
            };
            match self.after(session, event) {
                Progress::Pending(next) => first + next.requests(
                    session.with_ping(self.ping_after(session, now, event)),
                    events.skip(1),
                ),
                _ => first,
            }
        }
    }

    /// Writing the request header has been tried.
    spec fn past_request(self) -> bool {
        match self {
            HandleMessage::Exchanging(exchange) => {
                &&& exchange.stage != ExchangeStage::Quiet
                &&& exchange.stage != ExchangeStage::RequestHeader
            },
            HandleMessage::Abandoning { .. } => true,
            _ => false,
        }
    }

    /// The request header is due to be written.
    pub open spec fn writes_request(self) -> bool {
        self matches HandleMessage::Exchanging(exchange) && exchange.stage
            == ExchangeStage::RequestHeader
    }
}

proof fn requests_left(
    machine: HandleMessage<Seq<u8>, Seq<char>, nat>,
    session: Session,
    events: Seq<(Duration, MessageEvent<Seq<u8>, Seq<char>>)>,
)
    ensures
        machine.requests(session, events) <= if machine.past_request() {
            0nat
        } else {
            1nat
        },
    decreases events.len(),
{
    if events.len() > 0 {
        let (now, event) = events[0];
        match machine.after(session, event) {
            Progress::Pending(next) => {
                requests_left(
                    next,
                    session.with_ping(machine.ping_after(session, now, event)),
                    events.skip(1),
                );
            },
            _ => {},
        }
    }
}

/// Whatever happens, a request is sent at most once: no failure makes the client send it
/// again.
pub proof fn requests_are_sent_at_most_once(
    session: Session,
    security: Security<Seq<char>>,
    exchange: Exchange<Seq<u8>>,
    connected: bool,
    events: Seq<(Duration, MessageEvent<Seq<u8>, Seq<char>>)>,
)
    ensures
        HandleMessage::opening(session, security, exchange, connected).requests(session, events)
            <= 1,
{
    requests_left(
        HandleMessage::opening(session, security, exchange, connected),
        session,
        events,
    );
}

/// A kept connection is used again: no connection is established for the message. Without
/// connection reuse, or without a stream, one is.
pub proof fn kept_connections_are_reused(
    session: Session,
    security: Security<Seq<char>>,
    exchange: Exchange<Seq<u8>>,
    connected: bool,
)
    ensures
        ({
            let action = HandleMessage::opening(session, security, exchange, connected).due(
                session,
            );
            if session.keep_alive && connected {
                action is Claim
            } else {
                action == MessageAction::<Seq<u8>, Seq<char>, nat>::Connect(
                    Connect::opening(security).due(session),
                )
            }
        }),
{
}

/// An exchange is begun only with the in-flight lock held and a stream at hand.
pub proof fn exchanges_need_the_lock(
    machine: HandleMessage<Seq<u8>, Seq<char>, nat>,
    session: Session,
    event: MessageEvent<Seq<u8>, Seq<char>>,
)
    ensures
        machine.after(session, event) matches Progress::Pending(next) ==> {
            next is Exchanging && !(machine is Exchanging) ==> {
                &&& machine is Claiming
                &&& event == (MessageEvent::<Seq<u8>, Seq<char>>::Claimed { connected: true })
            }
        },
{
}

/// A failed exchange drops the connection and stops the ping task before its error is
/// handed out. A finished one hands its response out, and counts as activity.
pub proof fn failed_exchanges_drop_the_connection(
    session: Session,
    exchange: Exchange<Seq<u8>>,
    now: Duration,
    io: Event<Seq<u8>, Seq<char>>,
)
    requires
        exchange.after(io) is Finished,
    ensures
        ({
            let machine = HandleMessage::<_, _, nat>::Exchanging(exchange);
            let event = MessageEvent::Io(io);
            match exchange.after(io)->Finished_0 {
                Ok(response) => {
                    &&& machine.after(session, event) == Progress::<
                        HandleMessage<Seq<u8>, Seq<char>, nat>,
                        Seq<u8>,
                        Seq<char>,
                    >::Finished(Ok(response))
                    &&& machine.ping_after(session, now, event) == (PingState {
                        last_activity: now,
                        status_owed: !exchange.command_has_answer,
                        ..session.ping_state
                    })
                },
                Err(error) => {
                    let next = machine.after(session, event)->Pending_0;
                    &&& machine.after(session, event) is Pending
                    &&& next.due(session) is Abandon
                    &&& next.after(session, MessageEvent::Abandoned) == Progress::<
                        HandleMessage<Seq<u8>, Seq<char>, nat>,
                        Seq<u8>,
                        Seq<char>,
                    >::Finished(Err(error))
                    &&& machine.ping_after(session, now, event).should_stop
                },
            }
        }),
{
}

/// A status that was not waited for is accounted for: the exchange or the ping that uses
/// the connection next is told of it, one that ends well leaves it behind, and a new
/// connection starts without.
pub proof fn owed_statuses_are_accounted_for(
    session: Session,
    exchange: Exchange<Seq<u8>>,
    now: Duration,
)
    ensures
        HandleMessage::Claiming(exchange).after(
            session,
            MessageEvent::Claimed { connected: true },
        ) == Progress::<HandleMessage<Seq<u8>, Seq<char>, nat>, Seq<u8>, Seq<char>>::Pending(
            HandleMessage::Exchanging(claimed_exchange(session, exchange)),
        ),
        claimed_exchange(session, exchange).status_owed == session.ping_state.status_owed,
        forall|io: Event<Seq<u8>, Seq<char>>|
            #[trigger] exchange.after(io) matches Progress::Finished(Ok(_)) ==> {
                let machine = HandleMessage::<_, _, nat>::Exchanging(exchange);
                machine.ping_after(session, now, MessageEvent::Io(io)).status_owed
                    == !exchange.command_has_answer
            },
        PingTask::Sending(PingRequest::Flush).after(
            session.ping_state,
            now,
            PingEvent::Io(Event::Completed),
        ) == PingStep::Continue(
            PingTask::Receiving(
                PingResponse {
                    read_header: session.ping_state.timeout_config.read_header@,
                    status_owed: session.ping_state.status_owed,
                    stage: PingResponseStage::Status,
                },
            ),
        ),
        forall|response: PingResponse<nat>, io: Event<Seq<u8>, Seq<char>>|
            #[trigger] response.after(io) matches Progress::Finished(Ok(_)) ==> {
                let task = PingTask::Receiving(response);
                !task.state_after(session.ping_state, now, PingEvent::Io(io)).status_owed
            },
        forall|connect: Connect<Seq<char>, nat>|
            connect.stage is Install ==> !(#[trigger] connect.ping_after(
                session,
                ConnectEvent::Completed,
            )).status_owed,
{
}

/// No step of a message spoils the session.
pub proof fn messages_keep_sessions_well_formed(
    machine: HandleMessage<Seq<u8>, Seq<char>, nat>,
    session: Session,
    now: Duration,
    event: MessageEvent<Seq<u8>, Seq<char>>,
)
    requires
        session.wf(),
    ensures
        session.with_ping(machine.ping_after(session, now, event)).wf(),
{
}

impl HandleMessage<Seq<u8>, Seq<char>, nat> {
    /// What is written in full in the course of a series of events, each with its time.
    pub open spec fn writes(
        self,
        session: Session,
        events: Seq<(Duration, MessageEvent<Seq<u8>, Seq<char>>)>,
    ) -> Seq<Seq<u8>>
        decreases events.len(),
    {
        if events.len() == 0 {
            seq![]
        } else {
            let (now, event) = events[0];
            let first = match (self.due(session), event) {
                (
                    MessageAction::Io(Action::Write { bytes, .. }),
                    MessageEvent::Io(Event::Completed),
                ) => seq![bytes],
                _ => seq![],
            };
            match self.after(session, event) {
                Progress::Pending(next) => first + next.writes(
                    session.with_ping(self.ping_after(session, now, event)),
                    events.skip(1),
                ),
                _ => first,
            }
        }
    }

    /// What a series of events comes to.
    pub open spec fn run(
        self,
        session: Session,
        events: Seq<(Duration, MessageEvent<Seq<u8>, Seq<char>>)>,
    ) -> Progress<HandleMessage<Seq<u8>, Seq<char>, nat>, Seq<u8>, Seq<char>>
        decreases events.len(),
    {
        if events.len() == 0 {
            Progress::Pending(self)
        } else {
            let (now, event) = events[0];
            match self.after(session, event) {
                Progress::Pending(next) => next.run(
                    session.with_ping(self.ping_after(session, now, event)),
                    events.skip(1),
                ),
                finished => finished,
            }
        }
    }

    /// The machine is about the request of `command` and `data`, of which `count` parts are
    /// written.
    spec fn has_written(self, command: u32, data: Seq<u8>, count: nat) -> bool {
        let begun = |exchange: Exchange<Seq<u8>>|
            {
                &&& exchange.command == command
                &&& exchange.data == data
                &&& count == 0
                &&& exchange.stage is Quiet || exchange.stage is RequestHeader
            };
        match self {
            HandleMessage::Connecting { exchange, .. } => begun(exchange),
            HandleMessage::Claiming(exchange) => begun(exchange),
            HandleMessage::Exchanging(exchange) => {
                &&& exchange.command == command
                &&& exchange.data == data
                &&& count == match exchange.stage {
                    ExchangeStage::Quiet | ExchangeStage::RequestHeader => 0nat,
                    ExchangeStage::FlushRequestHeader
                    | ExchangeStage::RequestAnswer
                    | ExchangeStage::RequestData => 1,
                    ExchangeStage::FlushAcknowledge { .. }
                    | ExchangeStage::ResponseData { .. } => 3,
                    _ => 2,
                }
            },
            HandleMessage::Abandoning { .. } => count <= 3,
        }
    }
}

proof fn writes_left(
    machine: HandleMessage<Seq<u8>, Seq<char>, nat>,
    session: Session,
    command: u32,
    data: Seq<u8>,
    count: nat,
    events: Seq<(Duration, MessageEvent<Seq<u8>, Seq<char>>)>,
)
    requires
        machine.has_written(command, data, count),
    ensures
        ({
            let writes = machine.writes(session, events);
            let header = RequestHeader { command, data_size: size_field(data.len()) };
            let script = seq![header.wire(), data, seq![1u8]];
            &&& count + writes.len() <= 3
            &&& writes == script.subrange(count as int, (count + writes.len()) as int)
            &&& machine.run(session, events) matches Progress::Finished(Ok(_)) ==> count
                + writes.len() == 3
        }),
    decreases events.len(),
{
    let writes = machine.writes(session, events);
    let header = RequestHeader { command, data_size: size_field(data.len()) };
    let script = seq![header.wire(), data, seq![1u8]];
    assert(ResponseHeader::announcement(STATUS_OK, 0) =~= seq![1u8]);
    if events.len() > 0 {
        let (now, event) = events[0];
        let wrote: nat = match (machine.due(session), event) {
            (
                MessageAction::Io(Action::Write { .. }),
                MessageEvent::Io(Event::Completed),
            ) => 1,
            _ => 0,
        };
        match machine.after(session, event) {
            Progress::Pending(next) => {
                let next_session = session.with_ping(machine.ping_after(session, now, event));
                assert(next.has_written(command, data, count + wrote));
                writes_left(next, next_session, command, data, count + wrote, events.skip(1));
                let later = next.writes(next_session, events.skip(1));
                assert(writes.len() == wrote + later.len());
                assert forall|i: int| 0 <= i < writes.len() implies writes[i] == script[count
                    + i] by {
                    if i >= wrote {
                        assert(writes[i] == later[i - wrote]);
                        assert(later[i - wrote] == script[count + wrote + (i - wrote)]);
                    }
                }
            },
            _ => {},
        }
    }
    assert(writes =~= script.subrange(count as int, (count + writes.len()) as int));
}

/// Whatever happens, what a client writes for a message is, as far as it comes: a header of
/// eight bytes with the command and the number of the bytes given, then those bytes, and
/// then one byte, a one. A message that ends well has written all of it.
pub proof fn messages_are_written_as_given(
    session: Session,
    security: Security<Seq<char>>,
    command: u32,
    data: Seq<u8>,
    command_has_answer: bool,
    connected: bool,
    events: Seq<(Duration, MessageEvent<Seq<u8>, Seq<char>>)>,
)
    ensures
        ({
            let exchange = first_exchange(
                session,
                security,
                command,
                data,
                command_has_answer,
                connected,
            );
            let machine = HandleMessage::opening(session, security, exchange, connected);
            let writes = machine.writes(session, events);
            &&& writes.len() <= 3
            &&& writes.len() > 0 ==> {
                &&& writes[0].len() == 8
                &&& forall|i: int|
                    0 <= i < 4 ==> #[trigger] writes[0][i] == (command as int / pow(
                        256,
                        (3 - i) as nat,
                    )) % 256
                &&& forall|i: int|
                    4 <= i < 8 ==> #[trigger] writes[0][i] == (data.len() as int / pow(
                        256,
                        (7 - i) as nat,
                    )) % 256
            }
            &&& writes.len() > 1 ==> writes[1] == data
            &&& writes.len() > 2 ==> writes[2] == seq![1u8]
            &&& machine.run(session, events) matches Progress::Finished(Ok(_)) ==> writes.len()
                == 3
        }),
{
    let exchange = first_exchange(session, security, command, data, command_has_answer, connected);
    let machine = HandleMessage::opening(session, security, exchange, connected);
    writes_left(machine, session, command, data, 0, events);
    let writes = machine.writes(session, events);
    let header = RequestHeader { command, data_size: size_field(data.len()) };
    let script = seq![header.wire(), data, seq![1u8]];
    assert(forall|i: int| 0 <= i < writes.len() ==> writes[i] == script[i]);
    request_header_layout(header);
    assert forall|i: int| 4 <= i < 8 implies #[trigger] script[0][i] == (data.len() as int / pow(
        256,
        (7 - i) as nat,
    )) % 256 by {
        size_bytes_are_low_bytes(data.len(), i - 4);
    }
}

/// What [`messages_are_written_as_given`] says, of every series of events at once.
pub proof fn whatever_happens_messages_are_written_as_given(
    session: Session,
    security: Security<Seq<char>>,
    command: u32,
    data: Seq<u8>,
    command_has_answer: bool,
    connected: bool,
)
    ensures
        forall|events: Seq<(Duration, MessageEvent<Seq<u8>, Seq<char>>)>|
            {
                let writes = #[trigger] HandleMessage::opening(
                    session,
                    security,
                    first_exchange(session, security, command, data, command_has_answer, connected),
                    connected,
                ).writes(session, events);
                &&& writes.len() <= 3
                &&& writes.len() > 0 ==> {
                    &&& writes[0].len() == 8
                    &&& forall|i: int|
                        0 <= i < 4 ==> #[trigger] writes[0][i] == (command as int / pow(
                            256,
                            (3 - i) as nat,
                        )) % 256
                    &&& forall|i: int|
                        4 <= i < 8 ==> #[trigger] writes[0][i] == (data.len() as int / pow(
                            256,
                            (7 - i) as nat,
                        )) % 256
                }
                &&& writes.len() > 1 ==> writes[1] == data
                &&& writes.len() > 2 ==> writes[2] == seq![1u8]
            },
{
    assert forall|events: Seq<(Duration, MessageEvent<Seq<u8>, Seq<char>>)>|
        {
            let writes = #[trigger] HandleMessage::opening(
                session,
                security,
                first_exchange(session, security, command, data, command_has_answer, connected),
                connected,
            ).writes(session, events);
            &&& writes.len() <= 3
            &&& writes.len() > 0 ==> {
                &&& writes[0].len() == 8
                &&& forall|i: int|
                    0 <= i < 4 ==> #[trigger] writes[0][i] == (command as int / pow(
                        256,
                        (3 - i) as nat,
                    )) % 256
                &&& forall|i: int|
                    4 <= i < 8 ==> #[trigger] writes[0][i] == (data.len() as int / pow(
                        256,
                        (7 - i) as nat,
                    )) % 256
            }
            &&& writes.len() > 1 ==> writes[1] == data
            &&& writes.len() > 2 ==> writes[2] == seq![1u8]
        } by {
        messages_are_written_as_given(
            session,
            security,
            command,
            data,
            command_has_answer,
            connected,
            events,
        );
    }
}

/// A message begins on a kept connection where there is one, and with the settings of the
/// session: nothing is owed before the lock is held, and the words of its errors are those
/// of what it runs on.
pub proof fn messages_go_by_the_session(
    session: Session,
    security: Security<Seq<char>>,
    command: u32,
    data: Seq<u8>,
    command_has_answer: bool,
    connected: bool,
)
    ensures
        ({
            let machine = HandleMessage::opening(
                session,
                security,
                first_exchange(session, security, command, data, command_has_answer, connected),
                connected,
            );
            let exchange = if session.keep_alive && connected {
                machine->Claiming_0
            } else {
                machine->Connecting_exchange
            };
            &&& session.keep_alive && connected ==> {
                &&& machine is Claiming
                &&& exchange.stage is Quiet
            }
            &&& !(session.keep_alive && connected) ==> {
                &&& machine is Connecting
                &&& machine->connect.security == security
                &&& exchange.stage is RequestHeader
            }
            &&& exchange.command == command
            &&& exchange.data == data
            &&& exchange.command_has_answer == command_has_answer
            &&& exchange.max_buffer_size == session.max_buffer_size
            &&& exchange.timeouts == session.timeout_config
            &&& !exchange.status_owed
            &&& exchange.transport is Tls <==> security is Tls
        }),
{
}

/// A message does what its connection asks for while there is none, then takes the lock,
/// and then does what its exchange asks for, on the stream and with the status that is
/// owed there. Without a stream it fails.
pub proof fn messages_follow_their_parts(
    connect: Connect<Seq<char>, nat>,
    exchange: Exchange<Seq<u8>>,
    session: Session,
    step: ConnectEvent<Seq<char>>,
    io: Event<Seq<u8>, Seq<char>>,
)
    ensures
        ({
            let connecting = HandleMessage::Connecting { connect, exchange };
            let connected = connecting.after(session, MessageEvent::Connect(step));
            &&& connecting.due(session) == MessageAction::<Seq<u8>, Seq<char>, nat>::Connect(
                connect.due(session),
            )
            &&& match connect.after(session, step) {
                Progress::Pending(next) => connected == Progress::<
                    HandleMessage<Seq<u8>, Seq<char>, nat>,
                    Seq<u8>,
                    Seq<char>,
                >::Pending(HandleMessage::Connecting { connect: next, exchange }),
                Progress::Finished(Ok(_)) => connected == Progress::<
                    HandleMessage<Seq<u8>, Seq<char>, nat>,
                    Seq<u8>,
                    Seq<char>,
                >::Pending(HandleMessage::Claiming(exchange)),
                Progress::Finished(Err(error)) => connected == Progress::<
                    HandleMessage<Seq<u8>, Seq<char>, nat>,
                    Seq<u8>,
                    Seq<char>,
                >::Finished(Err(error)),
            }
        }),
        ({
            let claiming = HandleMessage::<Seq<u8>, Seq<char>, nat>::Claiming(exchange);
            let claimed = claiming.after(session, MessageEvent::Claimed { connected: true });
            let alone = claiming.after(session, MessageEvent::Claimed { connected: false });
            let begun = claimed->Pending_0->Exchanging_0;
            &&& claiming.due(session) is Claim
            &&& claimed is Pending
            &&& claimed->Pending_0 is Exchanging
            &&& begun.command == exchange.command
            &&& begun.data == exchange.data
            &&& begun.status_owed == session.ping_state.status_owed
            &&& begun.stage == exchange.stage
            &&& begun.command_has_answer == exchange.command_has_answer
            &&& begun.max_buffer_size == exchange.max_buffer_size
            &&& begun.timeouts == exchange.timeouts
            &&& begun.transport == exchange.transport
            &&& alone == Progress::<
                HandleMessage<Seq<u8>, Seq<char>, nat>,
                Seq<u8>,
                Seq<char>,
            >::Finished(
                Err(
                    match exchange.transport {
                        Transport::Tcp => Error::NotConnected,
                        Transport::Tls => Error::Msg("Not connected"@),
                    },
                ),
            )
        }),
        ({
            let exchanging = HandleMessage::<Seq<u8>, Seq<char>, nat>::Exchanging(exchange);
            let next = exchanging.after(session, MessageEvent::Io(io));
            &&& exchanging.due(session) == MessageAction::<Seq<u8>, Seq<char>, nat>::Io(
                exchange.due(),
            )
            &&& match exchange.after(io) {
                Progress::Pending(later) => next == Progress::<
                    HandleMessage<Seq<u8>, Seq<char>, nat>,
                    Seq<u8>,
                    Seq<char>,
                >::Pending(HandleMessage::Exchanging(later)),
                Progress::Finished(Ok(response)) => next == Progress::<
                    HandleMessage<Seq<u8>, Seq<char>, nat>,
                    Seq<u8>,
                    Seq<char>,
                >::Finished(Ok(response)),
                Progress::Finished(Err(error)) => {
                    &&& next is Pending
                    &&& next->Pending_0.due(session) == (MessageAction::<
                        Seq<u8>,
                        Seq<char>,
                        nat,
                    >::Abandon {
                        patience: if session.ping_state.running {
                            Some(5_000_000_000)
                        } else {
                            None
                        },
                    })
                    &&& next->Pending_0.after(session, MessageEvent::Abandoned) == Progress::<
                        HandleMessage<Seq<u8>, Seq<char>, nat>,
                        Seq<u8>,
                        Seq<char>,
                    >::Finished(Err(error))
                },
            }
        }),
{
}

/// What a message leaves of the ping state. A response counts as activity of that moment
/// and leaves a status owed exactly where it was not waited for. A failed exchange tells
/// the ping task to stop, and forgets that it runs. Nothing else in an exchange changes it.
pub proof fn messages_leave_their_marks(
    exchange: Exchange<Seq<u8>>,
    session: Session,
    now: Duration,
    io: Event<Seq<u8>, Seq<char>>,
)
    ensures
        ({
            let exchanging = HandleMessage::<Seq<u8>, Seq<char>, nat>::Exchanging(exchange);
            let before = session.ping_state;
            let after = exchanging.ping_after(session, now, MessageEvent::Io(io));
            &&& after.config == before.config
            &&& after.timeout_config == before.timeout_config
            &&& match exchange.after(io) {
                Progress::Pending(_) => after == before,
                Progress::Finished(Ok(_)) => {
                    &&& after.last_activity == now
                    &&& after.status_owed == !exchange.command_has_answer
                    &&& after.running == before.running
                    &&& after.should_stop == before.should_stop
                },
                Progress::Finished(Err(_)) => {
                    &&& after.should_stop
                    &&& !after.running
                    &&& after.last_activity == before.last_activity
                    &&& after.status_owed == before.status_owed
                },
            }
        }),
        ({
            let claiming = HandleMessage::<Seq<u8>, Seq<char>, nat>::Claiming(exchange);
            forall|event: MessageEvent<Seq<u8>, Seq<char>>|
                #[trigger] claiming.ping_after(session, now, event) == session.ping_state
        }),
        forall|connect: Connect<Seq<char>, nat>, step: ConnectEvent<Seq<char>>|
            (HandleMessage::<Seq<u8>, Seq<char>, nat>::Connecting { connect, exchange }).ping_after(
                session,
                now,
                MessageEvent::Connect(step),
            ) == #[trigger] connect.ping_after(session, step),
{
}

/// Contracts speak of messages, of what they ask for and of what came of it part by part.
pub proof fn messages_are_viewed_whole(
    connect: Connect,
    exchange: Exchange,
    error: Error,
    patience: Option<Duration>,
    step: ConnectAction,
    io: Action,
    came: ConnectEvent,
    event: Event,
    connected: bool,
)
    ensures
        (HandleMessage::Connecting { connect, exchange })@ == (HandleMessage::<
            Seq<u8>,
            Seq<char>,
            nat,
        >::Connecting { connect: connect@, exchange: exchange@ }),
        HandleMessage::<Vec<u8>, String, Duration>::Claiming(exchange)@ == HandleMessage::<
            Seq<u8>,
            Seq<char>,
            nat,
        >::Claiming(exchange@),
        HandleMessage::<Vec<u8>, String, Duration>::Exchanging(exchange)@ == HandleMessage::<
            Seq<u8>,
            Seq<char>,
            nat,
        >::Exchanging(exchange@),
        (HandleMessage::<Vec<u8>, String, Duration>::Abandoning { error, patience })@
            == (HandleMessage::<Seq<u8>, Seq<char>, nat>::Abandoning {
            error: error@,
            patience: span(patience),
        }),
        MessageAction::<Vec<u8>, String, Duration>::Connect(step)@ == MessageAction::<
            Seq<u8>,
            Seq<char>,
            nat,
        >::Connect(step@),
        MessageAction::<Vec<u8>, String, Duration>::Claim@ is Claim,
        MessageAction::<Vec<u8>, String, Duration>::Io(io)@ == MessageAction::<
            Seq<u8>,
            Seq<char>,
            nat,
        >::Io(io@),
        (MessageAction::<Vec<u8>, String, Duration>::Abandon { patience })@ == (MessageAction::<
            Seq<u8>,
            Seq<char>,
            nat,
        >::Abandon { patience: span(patience) }),
        MessageEvent::<Vec<u8>, String>::Connect(came)@ == MessageEvent::<
            Seq<u8>,
            Seq<char>,
        >::Connect(came@),
        (MessageEvent::<Vec<u8>, String>::Claimed { connected })@ == (MessageEvent::<
            Seq<u8>,
            Seq<char>,
        >::Claimed { connected }),
        MessageEvent::<Vec<u8>, String>::Io(event)@ == MessageEvent::<Seq<u8>, Seq<char>>::Io(
            event@,
        ),
        MessageEvent::<Vec<u8>, String>::Abandoned@ is Abandoned,
{
}

/// An event that does not answer what is due leaves a message and the ping state as they
/// are.
pub proof fn messages_take_one_answer(
    machine: HandleMessage<Seq<u8>, Seq<char>, nat>,
    session: Session,
    now: Duration,
    event: MessageEvent<Seq<u8>, Seq<char>>,
)
    requires
        match machine.due(session) {
            MessageAction::Connect(_) => !(event is Connect),
            MessageAction::Claim => !(event is Claimed),
            MessageAction::Io(_) => !(event is Io),
            MessageAction::Abandon { .. } => !(event is Abandoned),
        },
    ensures
        machine.after(session, event) == Progress::<
            HandleMessage<Seq<u8>, Seq<char>, nat>,
            Seq<u8>,
            Seq<char>,
        >::Pending(machine),
        machine.ping_after(session, now, event) == session.ping_state,
{
}

/// A message whose stream is dropped ends with the error that made it so, and leaves the
/// ping state alone.
pub proof fn abandoned_messages_end(
    error: Error<Seq<char>>,
    patience: Option<nat>,
    session: Session,
    now: Duration,
)
    ensures
        ({
            let machine = HandleMessage::<Seq<u8>, Seq<char>, nat>::Abandoning { error, patience };
            &&& machine.due(session) == (MessageAction::<Seq<u8>, Seq<char>, nat>::Abandon {
                patience,
            })
            &&& machine.after(session, MessageEvent::Abandoned) == Progress::<
                HandleMessage<Seq<u8>, Seq<char>, nat>,
                Seq<u8>,
                Seq<char>,
            >::Finished(Err(error))
            &&& machine.ping_after(session, now, MessageEvent::Abandoned) == session.ping_state
        }),
{
}

} // verus!
