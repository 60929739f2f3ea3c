//! The client's and the server's machines in conversation.
//!
//! Two ordered byte streams join a client to a server, for any number of requests one
//! after the other. The parties take turns in any order, and faults may strike either of
//! them at any moment. What follows from the machines is stated here: nobody takes a
//! wrong message for a right one, nobody waits for the other in vain, and every
//! conversation comes to an end. All of it holds as long as the size of a response is
//! never later than the short time that the client waits for it; what a later size does
//! is stated at the end.

use vstd::prelude::*;

use crate::error::{Error, Result};
use crate::exchange::{Exchange, ExchangeStage};
use crate::ping::{PingRequest, PingResponse, PingResponseStage};
use crate::protocol_structs::{PING, STATUS_INVALID_DATA_SIZE, STATUS_OK};
use crate::request_header::{request_header_round_trip, RequestHeader};
use crate::response_header::{response_header_round_trip, ResponseHeader};
use crate::server::{
    ReadCommand, ReadCommandStage, ReceiveData, Request, SendData, SendDataStage, Verdict,
};
use crate::timeout_config::TimeoutConfig;
use crate::transport::{size_field, Action, Event, Progress};

verus! {

/// A request that a client makes, and a server that reads it with its limits and answers
/// it.
pub struct Talk {
    /// The client's machine before its first byte.
    pub request: Exchange<Seq<u8>>,
    /// The server's payload limit.
    pub server_limit: usize,
    /// The server's time limits.
    pub server_timeouts: TimeoutConfig,
    /// The status that the server answers.
    pub status: u8,
    /// The payload that the server answers.
    pub payload: Option<Seq<u8>>,
}

/// What is said on one connection.
pub struct Line {
    pub talks: Seq<Talk>,
}

/// The client of a conversation.
pub enum ClientState {
    /// It is at work.
    Running(Exchange<Seq<u8>>),
    /// The protocol came to this result.
    Done(Result<Seq<u8>, Error<Seq<char>>>),
    /// A fault ended it.
    Cut(Error<Seq<char>>),
}

/// The server of a conversation: it takes a request, reads its payload and answers it.
pub enum ServerState {
    /// It takes the request.
    Reading(ReadCommand),
    /// It reads the payload.
    Receiving { command: u32, receiver: ReceiveData },
    /// It answers.
    Sending { command: u32, data: Seq<u8>, sender: SendData<Seq<u8>> },
    /// It has answered.
    Served { command: u32, data: Seq<u8> },
    /// It has answered a ping.
    Pinged,
    /// The protocol came to this error.
    Over(Error<Seq<char>>),
    /// A fault ended it.
    Cut(Error<Seq<char>>),
}

/// Both parties and the streams between them.
pub struct World {
    pub client: ClientState,
    pub server: ServerState,
    /// The talk that the client is at.
    pub client_at: nat,
    /// The talk that the server is at.
    pub server_at: nat,
    /// All bytes that the client has written.
    pub upstream: Seq<u8>,
    /// All bytes that the server has written.
    pub downstream: Seq<u8>,
    /// How many bytes the server has read.
    pub upstream_read: nat,
    /// How many bytes the client has read.
    pub downstream_read: nat,
    /// The size of a response was later than the client waited for it.
    pub mistaken: bool,
}

/// What happens next.
pub enum Turn {
    /// The client performs its I/O, unless it waits for bytes that are not there. Where
    /// it waits only shortly, its wait is over.
    Client,
    /// The server performs its I/O, unless it waits for bytes that are not there.
    Server,
    /// The client has its response, and makes its next request.
    NextRequest,
    /// The server has answered, and turns to the next request.
    NextRead,
    /// The client's I/O fails.
    ClientFails(Seq<char>),
    /// The client's I/O runs out of time, even where its bytes were written before.
    ClientIsLate,
    /// The server's I/O fails.
    ServerFails(Seq<char>),
    /// The server's I/O runs out of time.
    ServerIsLate,
}

/// Whether an action can be performed with `available` bytes to read.
pub open spec fn performable(action: Action<Seq<u8>, nat>, available: Seq<u8>) -> bool {
    match action {
        Action::Read { len, .. } => len <= available.len(),
        _ => true,
    }
}

/// What a performed action gives.
pub open spec fn effect(action: Action<Seq<u8>, nat>, available: Seq<u8>) -> Event<
    Seq<u8>,
    Seq<char>,
> {
    match action {
        Action::Read { len, .. } => Event::Received(available.subrange(0, len as int)),
        _ => Event::Completed,
    }
}

/// The bytes that an action writes.
pub open spec fn output(action: Action<Seq<u8>, nat>) -> Seq<u8> {
    match action {
        Action::Write { bytes, .. } => bytes,
        _ => seq![],
    }
}

/// The number of bytes that an action reads.
pub open spec fn intake(action: Action<Seq<u8>, nat>) -> nat {
    match action {
        Action::Read { len, .. } => len as nat,
        _ => 0,
    }
}

impl Talk {
    /// The payload that the server answers, or nothing.
    pub open spec fn reply(self) -> Seq<u8> {
        match self.payload {
            Some(bytes) => bytes,
            None => seq![],
        }
    }

    /// The server does not take the request: it is over the server's limit, or a ping with
    /// a payload.
    pub open spec fn refused(self) -> bool {
        self.request.command == PING || self.request.data.len() > self.server_limit
    }

    /// The error of a server that does not take the request.
    pub open spec fn refusal(self) -> Error<Seq<char>> {
        if self.request.command == PING {
            Error::Protocol("Ping must have data_size=0"@)
        } else {
            Error::Msg("Data size exceeds maximum allowed buffer size"@)
        }
    }

    /// Both sides fit together: sizes fit their fields, the request is not a proper ping,
    /// which has no response, and a client that waits for no answer gets no payload.
    pub open spec fn fits(self) -> bool {
        &&& self.request.data.len() <= u32::MAX
        &&& self.request.data.len() <= usize::MAX
        &&& self.reply().len() <= u32::MAX
        &&& self.reply().len() <= usize::MAX
        &&& !(self.request.command == PING && self.request.data.len() == 0)
        &&& self.request.command_has_answer || self.reply().len() == 0
    }

    /// What the client gets: nothing where it waits for no answer; else what the server
    /// answers, where it takes the request.
    pub open spec fn outcome(self) -> Result<Seq<u8>, Error<Seq<char>>> {
        if !self.request.command_has_answer {
            Ok(seq![])
        } else if self.status != STATUS_OK {
            Err(self.request.transport.bad_status(self.status))
        } else if self.reply().len() > self.request.max_buffer_size {
            Err(
                self.request.transport.oversized(
                    self.reply().len() as usize,
                    self.request.max_buffer_size,
                ),
            )
        } else {
            Ok(self.reply())
        }
    }

    /// The server's machine before its first byte.
    pub open spec fn reader(self) -> ReadCommand {
        ReadCommand {
            max_buffer_size: self.server_limit,
            timeouts: self.server_timeouts,
            stage: ReadCommandStage::Header,
        }
    }

    /// What becomes of a client that takes in `event`, which is a fault or not.
    pub open spec fn client_after(
        machine: Exchange<Seq<u8>>,
        event: Event<Seq<u8>, Seq<char>>,
        fault: bool,
    ) -> ClientState {
        match machine.after(event) {
            Progress::Pending(machine) => ClientState::Running(machine),
            Progress::Finished(Err(error)) if fault => ClientState::Cut(error),
            Progress::Finished(result) => ClientState::Done(result),
        }
    }

    /// What becomes of a server that takes in `event`, which is a fault or not.
    pub open spec fn server_after(
        self,
        server: ServerState,
        event: Event<Seq<u8>, Seq<char>>,
        fault: bool,
    ) -> ServerState {
        match server {
            ServerState::Reading(machine) => match machine.after(event) {
                Progress::Pending(machine) => ServerState::Reading(machine),
                Progress::Finished(Ok(Request::Ping)) => ServerState::Pinged,
                Progress::Finished(Ok(Request::Command { command, data_size })) => {
                    match ReceiveData::opening(data_size, self.server_limit, self.server_timeouts) {
                        Ok(receiver) => ServerState::Receiving { command, receiver },
                        Err(error) => ServerState::Over(error),
                    }
                },
                Progress::Finished(Err(error)) => if fault {
                    ServerState::Cut(error)
                } else {
                    ServerState::Over(error)
                },
            },
            ServerState::Receiving { command, receiver } => match receiver.after(event) {
                Progress::Pending(receiver) => ServerState::Receiving { command, receiver },
                Progress::Finished(Ok(data)) => ServerState::Sending {
                    command,
                    data,
                    sender: SendData {
                        status: self.status,
                        payload: self.payload,
                        timeouts: self.server_timeouts,
                        stage: SendDataStage::Header,
                    },
                },
                Progress::Finished(Err(error)) => if fault {
                    ServerState::Cut(error)
                } else {
                    ServerState::Over(error)
                },
            },
            ServerState::Sending { command, data, sender } => match sender.after(event) {
                Progress::Pending(sender) => ServerState::Sending { command, data, sender },
                Progress::Finished(Ok(_)) => ServerState::Served { command, data },
                Progress::Finished(Err(error)) => if fault {
                    ServerState::Cut(error)
                } else {
                    ServerState::Over(error)
                },
            },
            _ => server,
        }
    }
}

impl Line {
    /// How the talk with this number begins: the first one on a fresh connection, any
    /// other with a look at what is left there, and with a status owed where the one
    /// before waited for no answer.
    pub open spec fn begins(self, number: int) -> bool {
        let request = self.talks[number].request;
        if number == 0 {
            request.stage == ExchangeStage::RequestHeader && !request.status_owed
        } else {
            &&& request.stage == ExchangeStage::Quiet
            &&& request.status_owed == !self.talks[number - 1].request.command_has_answer
        }
    }

    /// There is something to say, and both sides fit together.
    pub open spec fn wf(self) -> bool {
        &&& self.talks.len() > 0
        &&& forall|number: int| 0 <= number < self.talks.len() ==> #[trigger] self.sound_at(number)
    }

    /// The talk with this number fits, and begins as it should.
    pub open spec fn sound_at(self, number: int) -> bool {
        self.talks[number].fits() && self.begins(number)
    }

    /// The world before the first byte.
    pub open spec fn start(self) -> World {
        World {
            client: ClientState::Running(self.talks[0].request),
            server: ServerState::Reading(self.talks[0].reader()),
            client_at: 0,
            server_at: 0,
            upstream: seq![],
            downstream: seq![],
            upstream_read: 0,
            downstream_read: 0,
            mistaken: false,
        }
    }

    /// The client can make its next request.
    pub open spec fn client_can_go_on(self, world: World) -> bool {
        &&& world.client matches ClientState::Done(Ok(_))
        &&& world.client_at + 1 < self.talks.len()
    }

    /// The server can turn to the next request.
    pub open spec fn server_can_go_on(self, world: World) -> bool {
        &&& world.server is Served
        &&& world.server_at + 1 < self.talks.len()
    }

    /// The turn is no fault, and can be taken.
    pub open spec fn can(self, world: World, turn: Turn) -> bool {
        match turn {
            Turn::Client => world.client_can_move(),
            Turn::Server => world.server_can_move(),
            Turn::NextRequest => self.client_can_go_on(world),
            Turn::NextRead => self.server_can_go_on(world),
            _ => false,
        }
    }

    /// The world after the client performed its I/O.
    pub open spec fn after_client(self, world: World) -> World {
        let machine = world.client->Running_0;
        let action = machine.due();
        if performable(action, world.for_client()) {
            World {
                client: Talk::client_after(machine, effect(action, world.for_client()), false),
                upstream: world.upstream + output(action),
                downstream_read: world.downstream_read + intake(action),
                ..world
            }
        } else {
            World { client: Talk::client_after(machine, Event::TimedOut, false), ..world }
        }
    }

    /// The world after the server performed its I/O.
    pub open spec fn after_server(self, world: World) -> World {
        let action = world.server.due()->Some_0;
        let event = effect(action, world.for_server());
        World {
            server: self.talks[world.server_at as int].server_after(world.server, event, false),
            downstream: world.downstream + output(action),
            upstream_read: world.upstream_read + intake(action),
            ..world
        }
    }

    /// The world after the client met a fault.
    pub open spec fn client_struck(world: World, event: Event<Seq<u8>, Seq<char>>) -> World {
        World {
            client: match world.client {
                ClientState::Running(machine) => Talk::client_after(machine, event, true),
                client => client,
            },
            ..world
        }
    }

    /// The world after the server met a fault.
    pub open spec fn server_struck(self, world: World, event: Event<Seq<u8>, Seq<char>>) -> World {
        World {
            server: self.talks[world.server_at as int].server_after(world.server, event, true),
            ..world
        }
    }

    /// The world after a turn. A turn that cannot be taken changes nothing.
    pub open spec fn after(self, world: World, turn: Turn) -> World {
        match turn {
            Turn::Client => if world.client_can_move() {
                self.after_client(world)
            } else {
                world
            },
            Turn::Server => if world.server_can_move() {
                self.after_server(world)
            } else {
                world
            },
            Turn::NextRequest => if self.client_can_go_on(world) {
                World {
                    client: ClientState::Running(self.talks[(world.client_at + 1) as int].request),
                    client_at: world.client_at + 1,
                    ..world
                }
            } else {
                world
            },
            Turn::NextRead => if self.server_can_go_on(world) {
                World {
                    server: ServerState::Reading(self.talks[(world.server_at + 1) as int].reader()),
                    server_at: world.server_at + 1,
                    ..world
                }
            } else {
                world
            },
            Turn::ClientFails(text) => Line::client_struck(world, Event::Failed(text)),
            Turn::ClientIsLate => World {
                mistaken: world.mistaken || world.size_is_late(),
                ..Line::client_struck(world, Event::TimedOut)
            },
            Turn::ServerFails(text) => self.server_struck(world, Event::Failed(text)),
            Turn::ServerIsLate => self.server_struck(world, Event::TimedOut),
        }
    }

    /// The world after a series of turns.
    pub open spec fn run(self, turns: Seq<Turn>) -> World
        decreases turns.len(),
    {
        if turns.len() == 0 {
            self.start()
        } else {
            self.after(self.run(turns.drop_last()), turns.last())
        }
    }

    /// How many turns are ahead at most, faults aside.
    pub open spec fn ahead(self, world: World) -> int {
        world.client.ahead() + 14 * (self.talks.len() - 1 - world.client_at)
            + world.server.ahead() + 10 * (self.talks.len() - 1 - world.server_at)
    }
}

impl ServerState {
    /// The I/O that is due, where the server is at work.
    pub open spec fn due(self) -> Option<Action<Seq<u8>, nat>> {
        match self {
            ServerState::Reading(machine) => Some(machine.due()),
            ServerState::Receiving { receiver, .. } => Some(receiver.due()),
            ServerState::Sending { sender, .. } => Some(sender.due()),
            _ => None,
        }
    }

    /// How many pieces of I/O the server has ahead of it in its talk at most.
    pub open spec fn ahead(self) -> nat {
        match self {
            ServerState::Reading(machine) => match machine.stage {
                ReadCommandStage::Header => 9,
                ReadCommandStage::Answer(_) => 8,
                ReadCommandStage::Flush(_) => 7,
            },
            ServerState::Receiving { .. } => 6,
            ServerState::Sending { sender, .. } => match sender.stage {
                SendDataStage::Header => 5,
                SendDataStage::FlushHeader => 4,
                SendDataStage::Acknowledgement => 3,
                SendDataStage::Payload => 2,
                SendDataStage::FlushPayload => 1,
            },
            _ => 0,
        }
    }
}

impl ClientState {
    /// How many pieces of I/O the client has ahead of it in its talk at most.
    pub open spec fn ahead(self) -> nat {
        match self {
            ClientState::Running(machine) => match machine.stage {
                ExchangeStage::Quiet => if machine.status_owed {
                    13
                } else {
                    12
                },
                ExchangeStage::RequestHeader => 11,
                ExchangeStage::FlushRequestHeader => 10,
                ExchangeStage::RequestAnswer => 9,
                ExchangeStage::RequestData => 8,
                ExchangeStage::FlushRequestData => 7,
                ExchangeStage::ResponseStatus => 6,
                ExchangeStage::ResponseSize => 5,
                ExchangeStage::ResponseSizeRest { .. } => 4,
                ExchangeStage::Acknowledge { .. } => 3,
                ExchangeStage::FlushAcknowledge { .. } => 2,
                ExchangeStage::ResponseData { .. } => 1,
            },
            _ => 0,
        }
    }
}

impl World {
    /// The bytes that the client can read.
    pub open spec fn for_client(self) -> Seq<u8> {
        self.downstream.skip(self.downstream_read as int)
    }

    /// The bytes that the server can read.
    pub open spec fn for_server(self) -> Seq<u8> {
        self.upstream.skip(self.upstream_read as int)
    }

    /// The client waits only shortly for what is due.
    pub open spec fn client_is_brief(self) -> bool {
        &&& self.client is Running
        &&& self.client->Running_0.stage is Quiet || self.client->Running_0.stage is ResponseSize
    }

    /// The client waits for the size of a response that was written already.
    pub open spec fn size_is_late(self) -> bool {
        &&& self.client is Running
        &&& self.client->Running_0.stage is ResponseSize
        &&& performable(self.client->Running_0.due(), self.for_client())
    }

    /// The client is at work and does not wait, or not for long.
    pub open spec fn client_can_move(self) -> bool {
        &&& self.client is Running
        &&& performable(self.client->Running_0.due(), self.for_client()) || self.client_is_brief()
    }

    /// The server is at work and does not wait.
    pub open spec fn server_can_move(self) -> bool {
        &&& self.server.due() is Some
        &&& performable(self.server.due()->Some_0, self.for_server())
    }
}

/// Every conversation comes to an end: a turn that is taken leaves fewer turns ahead, and a
/// fault never leaves more.
pub proof fn conversations_end(line: Line, world: World, turn: Turn)
    requires
        world.client_at < line.talks.len(),
        world.server_at < line.talks.len(),
    ensures
        line.ahead(world) >= 0,
        line.ahead(line.after(world, turn)) <= line.ahead(world),
        line.can(world, turn) ==> line.ahead(line.after(world, turn)) < line.ahead(world),
{
    if turn is Client && world.client_can_move() {
        client_turn_shortens(line, world);
    }
}

proof fn client_turn_shortens(line: Line, world: World)
    requires
        world.client_can_move(),
    ensures
        line.after_client(world).client.ahead() < world.client.ahead(),
{
}

impl Talk {
    /// All that the client may write in this talk: header, payload and acknowledgement.
    #[verifier::opaque]
    pub open spec fn up(self) -> Seq<u8> {
        self.request.header().wire() + self.request.data + ResponseHeader::announcement(
            STATUS_OK,
            0,
        )
    }

    /// The header of the response.
    #[verifier::opaque]
    pub open spec fn response_header(self) -> Seq<u8> {
        ResponseHeader::announcement(self.status, size_field(self.reply().len()))
    }

    /// What the server makes of the request.
    pub open spec fn verdict(self) -> Verdict {
        Verdict::on(self.request.header(), self.server_limit)
    }

    /// All that the server may write in this talk: the answer to the header, and where it
    /// takes the request the header and the payload of the response.
    #[verifier::opaque]
    pub open spec fn down(self) -> Seq<u8> {
        if self.refused() {
            self.verdict().answer()
        } else {
            self.verdict().answer() + self.response_header() + self.reply()
        }
    }

    /// How much of that the client reads in this talk, where it goes well.
    spec fn taken(self) -> int {
        if self.request.command_has_answer {
            (1 + self.response_header().len() + self.reply().len()) as int
        } else {
            1
        }
    }

    /// How much the client has written in this talk at a stage of its machine.
    spec fn written_at(self, stage: ExchangeStage) -> int {
        let n = self.request.data.len() as int;
        match stage {
            ExchangeStage::Quiet => 0,
            ExchangeStage::RequestHeader => 0,
            ExchangeStage::FlushRequestHeader => 8,
            ExchangeStage::RequestAnswer => 8,
            ExchangeStage::RequestData => 8,
            ExchangeStage::FlushRequestData => 8 + n,
            ExchangeStage::ResponseStatus => 8 + n,
            ExchangeStage::ResponseSize => 8 + n,
            ExchangeStage::ResponseSizeRest { .. } => 8 + n,
            ExchangeStage::Acknowledge { .. } => 8 + n,
            ExchangeStage::FlushAcknowledge { .. } => 9 + n,
            ExchangeStage::ResponseData { .. } => 9 + n,
        }
    }

    /// The request header has not been answered at this stage.
    spec fn unanswered(stage: ExchangeStage) -> bool {
        ||| stage is Quiet
        ||| stage is RequestHeader
        ||| stage is FlushRequestHeader
        ||| stage is RequestAnswer
    }

    /// How much the client has read in this talk at a stage past the answer.
    spec fn read_at(self, stage: ExchangeStage) -> int {
        let h = self.response_header().len() as int;
        match stage {
            ExchangeStage::ResponseSize => 2,
            ExchangeStage::ResponseSizeRest { .. } => 3,
            ExchangeStage::Acknowledge { .. } | ExchangeStage::FlushAcknowledge {
                ..
            } => if self.request.command_has_answer {
                1 + h
            } else {
                1
            },
            ExchangeStage::ResponseData { .. } => 1 + h,
            _ => 1,
        }
    }

    /// What the client knows at a stage of its machine is right.
    spec fn known_at(self, stage: ExchangeStage) -> bool {
        let answered = self.request.command_has_answer;
        match stage {
            ExchangeStage::ResponseStatus => answered,
            ExchangeStage::ResponseSize => {
                &&& answered
                &&& !self.refused()
                &&& self.status == STATUS_OK
            },
            ExchangeStage::ResponseSizeRest { first } => {
                &&& answered
                &&& !self.refused()
                &&& self.status == STATUS_OK
                &&& self.reply().len() > 0
                &&& first == self.down()[2]
            },
            ExchangeStage::Acknowledge { data_size } | ExchangeStage::FlushAcknowledge {
                data_size,
            } => {
                &&& answered ==> !self.refused()
                &&& self.outcome() is Ok
                &&& data_size == self.reply().len()
            },
            ExchangeStage::ResponseData { data_size } => {
                &&& answered
                &&& !self.refused()
                &&& self.outcome() is Ok
                &&& data_size == self.reply().len()
            },
            _ => true,
        }
    }

    /// The server has written whole pieces of this talk.
    spec fn whole_pieces(self, written: int) -> bool {
        let h = self.response_header().len() as int;
        ||| written <= 1
        ||| written == 1 + h
        ||| written == 1 + h + self.reply().len()
    }

    /// The server's machine is where its part of the streams says, and what it knows is
    /// right. `written` and `read` count the bytes of this talk.
    spec fn server_inv(self, server: ServerState, written: int, read: int) -> bool {
        let n = self.request.data.len() as int;
        let h = self.response_header().len() as int;
        match server {
            ServerState::Reading(machine) => {
                &&& machine.max_buffer_size == self.server_limit
                &&& machine.timeouts == self.server_timeouts
                &&& match machine.stage {
                    ReadCommandStage::Header => written == 0 && read == 0,
                    ReadCommandStage::Answer(verdict) => {
                        &&& written == 0 && read == 8
                        &&& verdict == self.verdict()
                        &&& !(verdict is Reject)
                    },
                    ReadCommandStage::Flush(verdict) => {
                        &&& written == 1 && read == 8
                        &&& verdict == self.verdict()
                        &&& !(verdict is Reject)
                    },
                }
            },
            ServerState::Receiving { command, receiver } => {
                &&& !self.refused()
                &&& command == self.request.command
                &&& receiver.len == n
                &&& receiver.timeouts == self.server_timeouts
                &&& written == 1 && read == 8
            },
            ServerState::Sending { command, data, sender } => {
                &&& !self.refused()
                &&& command == self.request.command
                &&& data == self.request.data
                &&& sender.status == self.status
                &&& sender.payload == self.payload
                &&& sender.timeouts == self.server_timeouts
                &&& match sender.stage {
                    SendDataStage::Header => written == 1 && read == 8 + n,
                    SendDataStage::FlushHeader => written == 1 + h && read == 8 + n,
                    SendDataStage::Acknowledgement => written == 1 + h && read == 8 + n,
                    SendDataStage::Payload => written == 1 + h && read == 9 + n,
                    SendDataStage::FlushPayload => written == 1 + h + self.reply().len() && read
                        == 9 + n,
                }
            },
            ServerState::Served { command, data } => {
                &&& !self.refused()
                &&& command == self.request.command
                &&& data == self.request.data
                &&& written == self.down().len()
                &&& read == self.up().len()
            },
            ServerState::Pinged => false,
            ServerState::Over(error) => {
                &&& self.refused()
                &&& error == self.refusal()
                &&& written == self.down().len()
            },
            ServerState::Cut(_) => true,
        }
    }
}

impl Line {
    /// All that the client may write in the first `number` talks.
    #[verifier::opaque]
    pub open spec fn up_to(self, number: nat) -> Seq<u8>
        decreases number,
    {
        if number == 0 {
            seq![]
        } else {
            self.up_to((number - 1) as nat) + self.talks[number - 1].up()
        }
    }

    /// All that the server may write in the first `number` talks.
    #[verifier::opaque]
    pub open spec fn down_to(self, number: nat) -> Seq<u8>
        decreases number,
    {
        if number == 0 {
            seq![]
        } else {
            self.down_to((number - 1) as nat) + self.talks[number - 1].down()
        }
    }

    spec fn u(self, number: nat) -> int {
        self.up_to(number).len() as int
    }

    spec fn d(self, number: nat) -> int {
        self.down_to(number).len() as int
    }

    /// How much the client has read when a talk begins.
    spec fn base(self, number: nat) -> int {
        if number == 0 {
            0
        } else {
            self.d((number - 1) as nat) + self.talks[number - 1].taken()
        }
    }

    /// The server takes the request with this number.
    spec fn takes(self, number: int) -> bool {
        !self.talks[number].refused()
    }

    spec fn client_inv(self, world: World) -> bool {
        let i = world.client_at;
        let talk = self.talks[i as int];
        match world.client {
            ClientState::Running(machine) => {
                &&& machine == (Exchange {
                    stage: machine.stage,
                    status_owed: machine.status_owed,
                    ..talk.request
                })
                &&& world.upstream.len() == self.u(i) + talk.written_at(machine.stage)
                &&& machine.status_owed ==> talk.request.status_owed
                &&& if Talk::unanswered(machine.stage) {
                    world.downstream_read == self.base(i) + if talk.request.status_owed
                        && !machine.status_owed {
                        1int
                    } else {
                        0
                    }
                } else {
                    &&& world.downstream_read == self.d(i) + talk.read_at(machine.stage)
                    &&& talk.known_at(machine.stage)
                }
            },
            ClientState::Done(result) => {
                &&& talk.request.command_has_answer ==> !talk.refused()
                &&& result == talk.outcome()
                &&& result is Ok ==> {
                    &&& world.upstream.len() == self.u(i + 1)
                    &&& world.downstream_read == self.d(i) + talk.taken()
                }
            },
            ClientState::Cut(_) => true,
        }
    }

    /// The streams hold what they should.
    spec fn streams_inv(self, world: World) -> bool {
        let len = self.talks.len();
        &&& world.client_at < len
        &&& world.server_at < len
        &&& world.upstream.len() <= self.up_to(len).len()
        &&& world.upstream == self.up_to(len).take(world.upstream.len() as int)
        &&& world.downstream.len() <= self.down_to(len).len()
        &&& world.downstream == self.down_to(len).take(world.downstream.len() as int)
        &&& world.upstream_read <= world.upstream.len()
        &&& world.downstream_read <= world.downstream.len()
    }

    /// The parties are not ahead of each other: the client is not past its talk, and the
    /// server answers only what it has heard.
    spec fn order_inv(self, world: World) -> bool {
        let i = world.client_at;
        let j = world.server_at;
        let talk = self.talks[j as int];
        &&& self.u(i) <= world.upstream.len() <= self.u(i + 1)
        &&& self.u(j) <= world.upstream_read
        &&& self.d(j) <= world.downstream.len() <= self.d(j + 1)
        &&& talk.whole_pieces(world.downstream.len() - self.d(j))
        &&& world.downstream.len() > self.d(j) ==> world.upstream_read >= self.u(j) + 8
        &&& i > 0 ==> (self.talks[i - 1].request.command_has_answer ==> !self.talks[i
            - 1].refused())
        &&& forall|k: int| 0 <= k < j ==> #[trigger] self.takes(k)
    }

    spec fn inv(self, world: World) -> bool {
        let j = world.server_at;
        &&& self.streams_inv(world)
        &&& self.order_inv(world)
        &&& self.client_inv(world)
        &&& self.talks[j as int].server_inv(
            world.server,
            world.downstream.len() - self.d(j),
            world.upstream_read - self.u(j),
        )
    }
}

/// The parts that the client's part of a talk is made of.
proof fn up_parts(talk: Talk)
    requires
        talk.fits(),
    ensures
        ({
            let n = talk.request.data.len() as int;
            &&& talk.up().len() == 9 + n
            &&& talk.up().subrange(0, 8) == talk.request.header().wire()
            &&& talk.up().subrange(8, 8 + n) == talk.request.data
            &&& talk.up().subrange(8 + n, 9 + n) == seq![STATUS_OK]
        }),
        RequestHeader::parse(talk.request.header().wire(), usize::MAX) == Ok::<
            RequestHeader,
            Error<Seq<char>>,
        >(talk.request.header()),
{
    reveal(Talk::up);
    let n = talk.request.data.len() as int;
    let header = talk.request.header();
    request_header_round_trip(header, seq![], usize::MAX);
    assert(header.wire() + seq![] =~= header.wire());
    assert(talk.up().subrange(0, 8) =~= header.wire());
    assert(talk.up().subrange(8, 8 + n) =~= talk.request.data);
    assert(talk.up().subrange(8 + n, 9 + n) =~= seq![STATUS_OK]);
}

/// What the server makes of a request that fits.
proof fn verdict_parts(talk: Talk)
    requires
        talk.fits(),
    ensures
        talk.refused() ==> talk.verdict() == if talk.request.command == PING {
            Verdict::Reject
        } else {
            Verdict::Refuse
        },
        talk.refused() ==> talk.verdict().conclusion() == Err::<Request, _>(talk.refusal()),
        !talk.refused() ==> talk.verdict() == Verdict::Take(
            Request::Command {
                command: talk.request.command,
                data_size: talk.request.data.len() as usize,
            },
        ),
        talk.verdict().answer() == if !talk.refused() {
            seq![STATUS_OK]
        } else if talk.request.command == PING {
            seq![]
        } else {
            seq![STATUS_INVALID_DATA_SIZE]
        },
{
}

/// The parts that the server's part of a talk is made of.
proof fn down_parts(talk: Talk)
    requires
        talk.fits(),
    ensures
        talk.refused() ==> talk.down().len() <= 1,
        talk.refused() ==> talk.down() == talk.verdict().answer(),
        talk.response_header().len() == if talk.reply().len() == 0 {
            1nat
        } else {
            5nat
        },
        !talk.refused() ==> {
            let h = talk.response_header().len() as int;
            let m = talk.reply().len() as int;
            &&& talk.down().len() == 1 + h + m
            &&& talk.down().subrange(0, 1) == talk.verdict().answer()
            &&& talk.down().subrange(1, 1 + h) == talk.response_header()
            &&& talk.down().subrange(1 + h, 1 + h + m) == talk.reply()
            &&& talk.down()[1] == talk.status
        },
{
    reveal(Talk::down);
    reveal(Talk::response_header);
    verdict_parts(talk);
    let h = talk.response_header().len() as int;
    let m = talk.reply().len() as int;
    if !talk.refused() {
        assert(talk.down().subrange(0, 1) =~= talk.verdict().answer());
        assert(talk.down().subrange(1, 1 + h) =~= talk.response_header());
        assert(talk.down().subrange(1 + h, 1 + h + m) =~= talk.reply());
    }
}

/// The size that follows a status reads back.
proof fn size_reads_back(talk: Talk)
    requires
        talk.fits(),
        !talk.refused(),
        talk.reply().len() > 0,
        talk.status == STATUS_OK,
    ensures
        ResponseHeader::parse(
            seq![STATUS_OK] + (seq![talk.down()[2]] + talk.down().subrange(3, 6)),
            false,
            usize::MAX,
        ) == Ok::<ResponseHeader, Error<Seq<char>>>(
            ResponseHeader { status: STATUS_OK, data_size: talk.reply().len() as u32 },
        ),
{
    reveal(Talk::response_header);
    down_parts(talk);
    verdict_parts(talk);
    let header = ResponseHeader { status: STATUS_OK, data_size: size_field(talk.reply().len()) };
    response_header_round_trip(header, seq![], usize::MAX);
    assert(header.wire(false) + seq![] =~= header.wire(false));
    assert(talk.response_header() == header.wire(false));
    let response = talk.down().subrange(1, 6);
    assert(seq![STATUS_OK] + (seq![talk.down()[2]] + talk.down().subrange(3, 6)) =~= response) by {
        assert(response[0] == talk.down()[1]);
        assert(response[1] == talk.down()[2]);
    }
}

/// The more talks, the more bytes.
proof fn streams_grow(line: Line, a: nat, b: nat)
    requires
        a <= b,
    ensures
        line.u(a) <= line.u(b),
        line.d(a) <= line.d(b),
    decreases b,
{
    reveal_with_fuel(Line::up_to, 2);
    reveal_with_fuel(Line::down_to, 2);
    if a < b {
        streams_grow(line, a, (b - 1) as nat);
    }
}

/// The part of the streams that belongs to a talk.
proof fn part_of_streams(line: Line, k: nat, n: nat)
    requires
        k < n,
    ensures
        line.u(k + 1) == line.u(k) + line.talks[k as int].up().len(),
        line.d(k + 1) == line.d(k) + line.talks[k as int].down().len(),
        line.u(k + 1) <= line.u(n),
        line.d(k + 1) <= line.d(n),
        line.up_to(n).subrange(line.u(k), line.u(k + 1)) == line.talks[k as int].up(),
        line.down_to(n).subrange(line.d(k), line.d(k + 1)) == line.talks[k as int].down(),
    decreases n,
{
    reveal_with_fuel(Line::up_to, 2);
    reveal_with_fuel(Line::down_to, 2);
    let (uk, dk) = (line.u(k), line.d(k));
    let (un, dn) = (line.u(k + 1), line.d(k + 1));
    if k + 1 == n {
        assert(line.up_to(n).subrange(uk, un) =~= line.talks[k as int].up());
        assert(line.down_to(n).subrange(dk, dn) =~= line.talks[k as int].down());
    } else {
        let m = (n - 1) as nat;
        part_of_streams(line, k, m);
        assert(line.up_to(n).subrange(uk, un) =~= line.up_to(m).subrange(uk, un));
        assert(line.down_to(n).subrange(dk, dn) =~= line.down_to(m).subrange(dk, dn));
    }
}

/// Reading from a stream that is a part of `whole` gives a piece of `whole`.
proof fn piece_read(stream: Seq<u8>, whole: Seq<u8>, from: int, len: int)
    requires
        stream.len() <= whole.len(),
        stream == whole.take(stream.len() as int),
        0 <= from,
        0 <= len,
        from + len <= stream.len(),
    ensures
        stream.skip(from).subrange(0, len) == whole.subrange(from, from + len),
{
    assert(stream.skip(from).subrange(0, len) =~= whole.subrange(from, from + len));
}

/// A piece of a part is a piece of the whole.
proof fn piece_of_part(whole: Seq<u8>, part: Seq<u8>, start: int, a: int, b: int)
    requires
        0 <= start,
        start + part.len() <= whole.len(),
        whole.subrange(start, start + part.len()) == part,
        0 <= a <= b <= part.len(),
    ensures
        whole.subrange(start + a, start + b) == part.subrange(a, b),
{
    assert(whole.subrange(start + a, start + b) =~= whole.subrange(
        start,
        start + part.len(),
    ).subrange(a, b));
}

/// Writing the next piece of `whole` to a stream leaves it a part of `whole`.
proof fn piece_written(stream: Seq<u8>, whole: Seq<u8>, piece: Seq<u8>)
    requires
        stream.len() + piece.len() <= whole.len(),
        stream == whole.take(stream.len() as int),
        piece == whole.subrange(stream.len() as int, (stream.len() + piece.len()) as int),
    ensures
        stream + piece == whole.take((stream.len() + piece.len()) as int),
{
    assert(stream + piece =~= whole.take((stream.len() + piece.len()) as int));
}

/// What the order of things says of the streams.
proof fn order_facts(line: Line, world: World)
    requires
        line.wf(),
        line.streams_inv(world),
        line.order_inv(world),
    ensures
        world.upstream.len() < line.u(world.client_at + 1) ==> world.server_at <= world.client_at,
        world.server_at < world.client_at ==> world.downstream.len() <= line.d(world.client_at),
        world.client_at > 0 && !line.talks[world.client_at - 1].refused() ==> line.base(
            world.client_at,
        ) + (if line.talks[world.client_at as int].request.status_owed {
            1int
        } else {
            0
        }) == line.d(world.client_at),
        world.client_at > 0 && line.talks[world.client_at - 1].refused() ==> {
            &&& line.base(world.client_at) >= line.d(world.client_at)
            &&& world.downstream.len() <= line.d(world.client_at)
        },
        world.client_at == 0 ==> line.base(0) == line.d(0),
{
    let i = world.client_at;
    let j = world.server_at;
    if j > i {
        streams_grow(line, i + 1, j);
    } else {
        streams_grow(line, j, i);
    }
    if j < i {
        streams_grow(line, j + 1, i);
    }
    if i > 0 {
        let last = (i - 1) as nat;
        let talk = line.talks[last as int];
        assert(line.sound_at(i as int) && line.sound_at(last as int));
        down_parts(talk);
        part_of_streams(line, last, i);
        if j > last {
            assert(line.takes(last as int));
        }
    } else {
        reveal_with_fuel(Line::down_to, 2);
    }
}

/// The look at what is left on the connection, and the request header.
proof fn asking_keeps_inv(line: Line, world: World)
    requires
        line.wf(),
        line.inv(world),
        world.client_can_move(),
        Talk::unanswered(world.client->Running_0.stage),
    ensures
        line.inv(line.after_client(world)),
{
    let i = world.client_at;
    let len = line.talks.len();
    let talk = line.talks[i as int];
    let machine = world.client->Running_0;
    let next = line.after_client(world);
    assert(line.sound_at(i as int));
    order_facts(line, world);
    part_of_streams(line, i, len);
    up_parts(talk);
    down_parts(talk);
    match machine.stage {
        ExchangeStage::RequestHeader => {
            piece_of_part(line.up_to(len), talk.up(), line.u(i), 0, 8);
            piece_written(world.upstream, line.up_to(len), talk.request.header().wire());
        },
        _ => {
            assert(next.upstream =~= world.upstream);
        },
    }
}

/// The payload and the acknowledgement.
proof fn telling_keeps_inv(line: Line, world: World)
    requires
        line.wf(),
        line.inv(world),
        world.client_can_move(),
        ({
            let stage = world.client->Running_0.stage;
            ||| stage is RequestData
            ||| stage is FlushRequestData
            ||| stage is Acknowledge
            ||| stage is FlushAcknowledge
        }),
    ensures
        line.inv(line.after_client(world)),
{
    let i = world.client_at;
    let len = line.talks.len();
    let n = line.talks[i as int].request.data.len() as int;
    let talk = line.talks[i as int];
    let next = line.after_client(world);
    assert(line.sound_at(i as int));
    part_of_streams(line, i, len);
    up_parts(talk);
    down_parts(talk);
    if talk.reply().len() == 0 {
        assert(talk.reply() =~= seq![]);
    }
    match world.client->Running_0.stage {
        ExchangeStage::RequestData => {
            piece_of_part(line.up_to(len), talk.up(), line.u(i), 8, 8 + n);
            piece_written(world.upstream, line.up_to(len), talk.request.data);
        },
        ExchangeStage::Acknowledge { .. } => {
            piece_of_part(line.up_to(len), talk.up(), line.u(i), 8 + n, 9 + n);
            piece_written(world.upstream, line.up_to(len), seq![STATUS_OK]);
        },
        _ => {
            assert(next.upstream =~= world.upstream);
        },
    }
}

/// The response.
proof fn hearing_keeps_inv(line: Line, world: World)
    requires
        line.wf(),
        line.inv(world),
        world.client_can_move(),
        ({
            let stage = world.client->Running_0.stage;
            ||| stage is ResponseStatus
            ||| stage is ResponseSize
            ||| stage is ResponseSizeRest
            ||| stage is ResponseData
        }),
    ensures
        line.inv(line.after_client(world)),
{
    let i = world.client_at;
    let j = world.server_at;
    let len = line.talks.len();
    let talk = line.talks[i as int];
    let h = talk.response_header().len() as int;
    let m = talk.reply().len() as int;
    let (d, whole) = (line.d(i), line.down_to(len));
    let read = world.downstream_read as int;
    let machine = world.client->Running_0;
    let next = line.after_client(world);
    assert(line.sound_at(i as int));
    order_facts(line, world);
    part_of_streams(line, i, len);
    up_parts(talk);
    down_parts(talk);
    assert(next.upstream =~= world.upstream);
    if j > i {
        streams_grow(line, i + 1, j);
    }
    match machine.stage {
        ExchangeStage::ResponseStatus => {
            assert(j == i);
            if performable(machine.due(), world.for_client()) {
                assert(!talk.refused());
                piece_read(world.downstream, whole, read, 1);
                piece_of_part(whole, talk.down(), d, 1, 2);
                assert(talk.down().subrange(1, 2) =~= seq![talk.status]);
            }
        },
        ExchangeStage::ResponseSize => {
            assert(j == i);
            if performable(machine.due(), world.for_client()) {
                assert(m > 0);
                piece_read(world.downstream, whole, read, 1);
                piece_of_part(whole, talk.down(), d, 2, 3);
                assert(talk.down().subrange(2, 3) =~= seq![talk.down()[2]]);
            } else {
                assert(m == 0);
                assert(talk.reply() =~= seq![]);
            }
        },
        ExchangeStage::ResponseSizeRest { first } => {
            piece_read(world.downstream, whole, read, 3);
            piece_of_part(whole, talk.down(), d, 3, 6);
            size_reads_back(talk);
        },
        _ => {
            piece_read(world.downstream, whole, read, m);
            piece_of_part(whole, talk.down(), d, 1 + h, 1 + h + m);
        },
    }
}

proof fn reading_keeps_inv(line: Line, world: World)
    requires
        line.wf(),
        line.inv(world),
        world.server is Reading,
        world.server_can_move(),
    ensures
        line.inv(line.after_server(world)),
{
    let j = world.server_at;
    let len = line.talks.len();
    let talk = line.talks[j as int];
    let machine = world.server->Reading_0;
    let next = line.after_server(world);
    assert(line.sound_at(j as int));
    part_of_streams(line, j, len);
    up_parts(talk);
    verdict_parts(talk);
    down_parts(talk);
    match machine.stage {
        ReadCommandStage::Header => {
            piece_read(world.upstream, line.up_to(len), line.u(j), 8);
            piece_of_part(line.up_to(len), talk.up(), line.u(j), 0, 8);
            assert(next.downstream =~= world.downstream);
        },
        ReadCommandStage::Answer(verdict) => {
            let answer = talk.verdict().answer();
            assert(talk.down().subrange(0, 1) =~= answer);
            piece_of_part(line.down_to(len), talk.down(), line.d(j), 0, 1);
            piece_written(world.downstream, line.down_to(len), answer);
        },
        ReadCommandStage::Flush(verdict) => {
            assert(next.downstream =~= world.downstream);
        },
    }
}

proof fn receiving_keeps_inv(line: Line, world: World)
    requires
        line.wf(),
        line.inv(world),
        world.server is Receiving,
        world.server_can_move(),
    ensures
        line.inv(line.after_server(world)),
{
    let j = world.server_at;
    let len = line.talks.len();
    let talk = line.talks[j as int];
    let n = talk.request.data.len() as int;
    assert(line.sound_at(j as int));
    part_of_streams(line, j, len);
    up_parts(talk);
    piece_read(world.upstream, line.up_to(len), line.u(j) + 8, n);
    piece_of_part(line.up_to(len), talk.up(), line.u(j), 8, 8 + n);
    assert(line.after_server(world).downstream =~= world.downstream);
}

proof fn sending_keeps_inv(line: Line, world: World)
    requires
        line.wf(),
        line.inv(world),
        world.server is Sending,
        world.server_can_move(),
    ensures
        line.inv(line.after_server(world)),
{
    let j = world.server_at;
    let len = line.talks.len();
    let talk = line.talks[j as int];
    let n = talk.request.data.len() as int;
    let h = talk.response_header().len() as int;
    let m = talk.reply().len() as int;
    let (d, whole) = (line.d(j), line.down_to(len));
    let next = line.after_server(world);
    assert(line.sound_at(j as int));
    part_of_streams(line, j, len);
    up_parts(talk);
    down_parts(talk);
    match world.server->sender.stage {
        SendDataStage::Header => {
            reveal(Talk::response_header);
            piece_of_part(whole, talk.down(), d, 1, 1 + h);
            piece_written(world.downstream, whole, talk.response_header());
        },
        SendDataStage::Acknowledgement => {
            piece_read(world.upstream, line.up_to(len), line.u(j) + 8 + n, 1);
            piece_of_part(line.up_to(len), talk.up(), line.u(j), 8 + n, 9 + n);
            assert(next.downstream =~= world.downstream);
        },
        SendDataStage::Payload => {
            piece_of_part(whole, talk.down(), d, 1 + h, 1 + h + m);
            piece_written(world.downstream, whole, talk.reply());
        },
        _ => {
            assert(next.downstream =~= world.downstream);
        },
    }
}

proof fn next_request_keeps_inv(line: Line, world: World)
    requires
        line.wf(),
        line.inv(world),
        line.client_can_go_on(world),
    ensures
        line.inv(line.after(world, Turn::NextRequest)),
{
    let i = world.client_at;
    assert(line.sound_at(i as int) && line.sound_at((i + 1) as int));
    part_of_streams(line, i, line.talks.len());
    part_of_streams(line, i + 1, line.talks.len());
}

proof fn next_read_keeps_inv(line: Line, world: World)
    requires
        line.wf(),
        line.inv(world),
        line.server_can_go_on(world),
    ensures
        line.inv(line.after(world, Turn::NextRead)),
{
    let j = world.server_at;
    let next = line.after(world, Turn::NextRead);
    assert(line.sound_at(j as int));
    up_parts(line.talks[j as int]);
    part_of_streams(line, j, line.talks.len());
    part_of_streams(line, j + 1, line.talks.len());
    assert forall|k: int| 0 <= k < next.server_at implies #[trigger] line.takes(k) by {
        if k == j {
            assert(!line.talks[k].refused());
        }
    }
}

proof fn late_client_keeps_inv(line: Line, world: World)
    requires
        line.wf(),
        line.inv(world),
        !world.size_is_late(),
    ensures
        line.inv(Line::client_struck(world, Event::TimedOut)),
{
    if world.client_is_brief() {
        if performable(world.client->Running_0.due(), world.for_client()) {
            assert(world.client->Running_0.stage is Quiet);
        } else if world.client->Running_0.stage is ResponseSize {
            hearing_keeps_inv(line, world);
        } else {
            asking_keeps_inv(line, world);
        }
    }
}

proof fn turn_keeps_inv(line: Line, world: World, turn: Turn)
    requires
        line.wf(),
        line.inv(world),
        !line.after(world, turn).mistaken,
    ensures
        line.inv(line.after(world, turn)),
{
    match turn {
        Turn::Client => if world.client_can_move() {
            let stage = world.client->Running_0.stage;
            if Talk::unanswered(stage) {
                asking_keeps_inv(line, world);
            } else if stage is ResponseStatus || stage is ResponseSize || stage is ResponseSizeRest
                || stage is ResponseData {
                hearing_keeps_inv(line, world);
            } else {
                telling_keeps_inv(line, world);
            }
        },
        Turn::Server => if world.server_can_move() {
            match world.server {
                ServerState::Reading(_) => reading_keeps_inv(line, world),
                ServerState::Receiving { .. } => receiving_keeps_inv(line, world),
                _ => sending_keeps_inv(line, world),
            }
        },
        Turn::NextRequest => if line.client_can_go_on(world) {
            next_request_keeps_inv(line, world);
        },
        Turn::NextRead => if line.server_can_go_on(world) {
            next_read_keeps_inv(line, world);
        },
        Turn::ClientIsLate => late_client_keeps_inv(line, world),
        _ => {},
    }
}

proof fn run_has_inv(line: Line, turns: Seq<Turn>)
    requires
        line.wf(),
        !line.run(turns).mistaken,
    ensures
        line.inv(line.run(turns)),
    decreases turns.len(),
{
    let len = line.talks.len();
    if turns.len() == 0 {
        assert(line.sound_at(0));
        reveal_with_fuel(Line::up_to, 2);
        reveal_with_fuel(Line::down_to, 2);
        assert(line.start().upstream =~= line.up_to(len).take(0));
        assert(line.start().downstream =~= line.down_to(len).take(0));
        streams_grow(line, 0, 1);
    } else {
        run_has_inv(line, turns.drop_last());
        turn_keeps_inv(line, line.run(turns.drop_last()), turns.last());
    }
}

/// Whatever the order of turns and whatever fails, as long as no size was later than the
/// client waited for it: a client that the protocol brings to a result has the server's
/// answer to its request, or nothing where it waits for none; and a server that has served
/// a request was given the client's command and payload. A refused request is never
/// served, and the server's error says why.
pub proof fn conversations_are_sound(line: Line, turns: Seq<Turn>)
    requires
        line.wf(),
        !line.run(turns).mistaken,
    ensures
        line.run(turns).client matches ClientState::Done(result) ==> {
            let talk = line.talks[line.run(turns).client_at as int];
            &&& result == talk.outcome()
            &&& talk.request.command_has_answer ==> !talk.refused()
        },
        line.run(turns).server matches ServerState::Served { command, data } ==> {
            let talk = line.talks[line.run(turns).server_at as int];
            &&& !talk.refused()
            &&& command == talk.request.command
            &&& data == talk.request.data
        },
        line.run(turns).server matches ServerState::Over(error) ==> {
            let talk = line.talks[line.run(turns).server_at as int];
            &&& talk.refused()
            &&& error == talk.refusal()
        },
        !(line.run(turns).server is Pinged),
{
    run_has_inv(line, turns);
}

/// A server that has refused a request for its size has answered it with the status for
/// an invalid size, and with nothing else. A ping with a payload is not answered at all.
pub proof fn refusals_are_answered(line: Line, turns: Seq<Turn>)
    requires
        line.wf(),
        !line.run(turns).mistaken,
        line.run(turns).server is Over,
    ensures
        ({
            let world = line.run(turns);
            let talk = line.talks[world.server_at as int];
            world.downstream == line.down_to(world.server_at) + if talk.request.command == PING {
                seq![]
            } else {
                seq![STATUS_INVALID_DATA_SIZE]
            }
        }),
{
    run_has_inv(line, turns);
    let world = line.run(turns);
    let j = world.server_at;
    let len = line.talks.len();
    let talk = line.talks[j as int];
    assert(line.sound_at(j as int));
    verdict_parts(talk);
    down_parts(talk);
    part_of_streams(line, j, len);
    prefix_of_streams(line, j, len);
    assert(world.downstream =~= line.down_to(len).take(line.d(j)) + line.down_to(len).subrange(
        line.d(j),
        line.d(j + 1),
    ));
}

/// The bytes of the first talks come first.
proof fn prefix_of_streams(line: Line, k: nat, n: nat)
    requires
        k <= n,
    ensures
        line.d(k) <= line.d(n),
        line.down_to(n).take(line.d(k)) == line.down_to(k),
    decreases n,
{
    reveal_with_fuel(Line::down_to, 2);
    if k < n {
        prefix_of_streams(line, k, (n - 1) as nat);
    }
    assert(line.down_to(n).take(line.d(k)) =~= line.down_to(k));
}

/// A talk that went well leaves nothing behind but what is owed: once the client is done
/// with it and the server too, every byte that was written has been read, save for the
/// status of a response that the client did not wait for. The next request is told of
/// that one, and finds nothing else.
pub proof fn conversations_leave_nothing_behind(line: Line, turns: Seq<Turn>)
    requires
        line.wf(),
        !line.run(turns).mistaken,
        line.run(turns).client matches ClientState::Done(Ok(_)),
        line.run(turns).server is Served,
        line.run(turns).client_at == line.run(turns).server_at,
    ensures
        ({
            let world = line.run(turns);
            let talk = line.talks[world.client_at as int];
            &&& world.for_server() == Seq::<u8>::empty()
            &&& world.for_client() == if talk.request.command_has_answer {
                Seq::<u8>::empty()
            } else {
                seq![talk.status]
            }
        }),
{
    run_has_inv(line, turns);
    let world = line.run(turns);
    let i = world.client_at;
    let len = line.talks.len();
    let talk = line.talks[i as int];
    assert(line.sound_at(i as int));
    up_parts(talk);
    down_parts(talk);
    part_of_streams(line, i, len);
    if !talk.request.command_has_answer {
        piece_read(world.downstream, line.down_to(len), line.d(i) + 1, 1);
        piece_of_part(line.down_to(len), talk.down(), line.d(i), 1, 2);
        assert(talk.down().subrange(1, 2) =~= seq![talk.status]);
        assert(world.for_client() =~= world.for_client().subrange(0, 1));
    }
}

/// No fault has ended the client or the server, and no size was late.
pub open spec fn unharmed(world: World) -> bool {
    !(world.client is Cut) && !(world.server is Cut) && !world.mistaken
}

/// The conversation is at its end: a request was refused or came to an error, or both
/// parties are done with the last one.
pub open spec fn settled(line: Line, world: World) -> bool {
    ||| world.server is Over
    ||| world.client matches ClientState::Done(Err(_))
    ||| {
        &&& world.client is Done
        &&& world.client_at == line.talks.len() - 1
        &&& world.server is Served
        &&& world.server_at == line.talks.len() - 1
    }
}

/// Without faults somebody can always move until the conversation is at its end: nobody
/// waits for bytes that the other will not send.
pub proof fn conversations_do_not_block(line: Line, turns: Seq<Turn>) -> (turn: Turn)
    requires
        line.wf(),
        unharmed(line.run(turns)),
        !settled(line, line.run(turns)),
    ensures
        line.can(line.run(turns), turn),
{
    run_has_inv(line, turns);
    let world = line.run(turns);
    if line.can(world, Turn::Client) {
        Turn::Client
    } else if line.can(world, Turn::NextRequest) {
        Turn::NextRequest
    } else if line.can(world, Turn::NextRead) {
        Turn::NextRead
    } else {
        server_can_move(line, world);
        Turn::Server
    }
}

/// Where the client waits, the server does not.
proof fn server_can_move(line: Line, world: World)
    requires
        line.wf(),
        line.inv(world),
        unharmed(world),
        !settled(line, world),
        !world.client_can_move(),
        !line.client_can_go_on(world),
        !line.server_can_go_on(world),
    ensures
        world.server_can_move(),
{
    let i = world.client_at;
    let j = world.server_at;
    let len = line.talks.len();
    assert(line.sound_at(i as int) && line.sound_at(j as int));
    order_facts(line, world);
    part_of_streams(line, i, len);
    part_of_streams(line, j, len);
    up_parts(line.talks[i as int]);
    up_parts(line.talks[j as int]);
    down_parts(line.talks[i as int]);
    down_parts(line.talks[j as int]);
    if j < i {
        streams_grow(line, j + 1, i);
    } else if j > i {
        streams_grow(line, i + 1, j);
    }
}

/// A conversation that no fault has struck yet can be brought to its end, from wherever it
/// stands.
pub proof fn conversations_can_be_completed(line: Line, turns: Seq<Turn>) -> (rest: Seq<Turn>)
    requires
        line.wf(),
        unharmed(line.run(turns)),
    ensures
        unharmed(line.run(turns + rest)),
        settled(line, line.run(turns + rest)),
        rest.len() <= line.ahead(line.run(turns)),
    decreases line.ahead(line.run(turns)),
{
    let world = line.run(turns);
    run_has_inv(line, turns);
    if settled(line, world) {
        assert(turns + Seq::<Turn>::empty() =~= turns);
        conversations_end(line, world, Turn::Client);
        Seq::empty()
    } else {
        let turn = conversations_do_not_block(line, turns);
        conversations_end(line, world, turn);
        assert(turns.push(turn).drop_last() =~= turns);
        turns_do_no_harm(line, world, turn);
        let next = line.run(turns.push(turn));
        run_has_inv(line, turns.push(turn));
        conversations_end(line, next, turn);
        let rest = conversations_can_be_completed(line, turns.push(turn));
        assert(turns.push(turn) + rest =~= turns + (seq![turn] + rest));
        seq![turn] + rest
    }
}

proof fn turns_do_no_harm(line: Line, world: World, turn: Turn)
    requires
        line.can(world, turn),
        unharmed(world),
    ensures
        unharmed(line.after(world, turn)),
{
}

/// A size that begins later than the client waits for it is taken for absent: the client
/// acknowledges the response and takes it to be empty. What came late is not taken for
/// anything else by an exchange that finds it on the connection, where no status is owed:
/// that exchange fails before it has written anything, and so drops the connection.
pub proof fn late_sizes_are_found_out(exchange: Exchange<Seq<u8>>, late: Seq<u8>)
    requires
        !exchange.status_owed,
    ensures
        exchange.at(ExchangeStage::ResponseSize).after(Event::TimedOut) == Progress::<
            Exchange<Seq<u8>>,
            Seq<u8>,
            Seq<char>,
        >::Pending(exchange.at(ExchangeStage::Acknowledge { data_size: 0 })),
        exchange.at(ExchangeStage::Quiet).after(Event::Received(late)) == Progress::<
            Exchange<Seq<u8>>,
            Seq<u8>,
            Seq<char>,
        >::Finished(Err(Error::Protocol("Unexpected data on the connection"@))),
{
}

/// A ping is eight zero bytes. The server answers it with a single success byte, whatever
/// its payload limit, and hands out nothing to be done. That byte alone satisfies the
/// client, after the status that is owed if one is, and so does a full header with an
/// empty payload.
pub proof fn pings_are_answered(
    reader: ReadCommand,
    response: PingResponse<nat>,
    owed: Seq<u8>,
)
    requires
        reader.stage is Header,
        response.stage == PingResponseStage::Status,
        owed.len() == if response.status_owed {
            1nat
        } else {
            0nat
        },
    ensures
        output(PingRequest::Header.due()) == seq![0u8, 0, 0, 0, 0, 0, 0, 0],
        reader.after(Event::Received(output(PingRequest::Header.due()))) == Progress::<
            ReadCommand,
            Request,
            Seq<char>,
        >::Pending(reader.at(ReadCommandStage::Answer(Verdict::Take(Request::Ping)))),
        output(reader.at(ReadCommandStage::Answer(Verdict::Take(Request::Ping))).due()) == seq![
            STATUS_OK,
        ],
        reader.at(ReadCommandStage::Flush(Verdict::Take(Request::Ping))).after(Event::Completed)
            == Progress::<ReadCommand, Request, Seq<char>>::Finished(Ok(Request::Ping)),
        response.after(Event::Received(owed + seq![STATUS_OK])) == Progress::<
            PingResponse<nat>,
            (),
            Seq<char>,
        >::Pending(response.at(PingResponseStage::Size)),
        response.at(PingResponseStage::Size).after(Event::TimedOut) == Progress::<
            PingResponse<nat>,
            (),
            Seq<char>,
        >::Finished(Ok(())),
        response.at(PingResponseStage::Size).after(Event::Received(seq![0u8, 0, 0, 0]))
            == Progress::<PingResponse<nat>, (), Seq<char>>::Finished(Ok(())),
{
    let ping = RequestHeader { command: PING, data_size: 0 };
    request_header_round_trip(ping, seq![], usize::MAX);
    assert(ping.wire() + seq![] =~= ping.wire());
    assert(ping.wire() =~= seq![0u8, 0, 0, 0, 0, 0, 0, 0]);
    assert(seq![0u8, 0, 0, 0].subrange(0, 4) =~= seq![0u8, 0, 0, 0]);
}

} // verus!
