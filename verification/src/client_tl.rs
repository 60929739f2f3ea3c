//! Client on a plain TCP connection.

use vstd::arithmetic::power::pow;
use vstd::prelude::*;

use crate::connect::{Connect, ConnectStage, Security};
use crate::disconnect::Disconnect;
use crate::duration::Duration;
use crate::error::{outcome, Result};
use crate::exchange::Transport;
use crate::message::{
    first_exchange, whatever_happens_messages_are_written_as_given, HandleMessage, MessageEvent,
};
use crate::ping::{PingConfig, PingState};
use crate::session::{Release, Session};
use crate::timeout_config::{clamped_interval, TimeoutConfig};
use crate::transport::{buffer_limit, span, DEFAULT_MAX_BUFFER_SIZE};

verus! {

/// Client with connection reuse, keep-alive pings and time limits.
///
/// Its connection is established by the first message, or by `connect`.
#[derive(Debug)]
pub struct ClientTL {
    pub session: Session,
}

impl ClientTL {
    /// The session is well-formed.
    pub open spec fn wf(self) -> bool {
        self.session.wf()
    }

    /// A client of the server at `address`, made at the time `now`.
    pub fn new(address: String, now: Duration) -> (client: ClientTL)
        ensures
            client.wf(),
            client.session.timeout_config.is_default(),
            client.session.max_buffer_size == 10_485_760,
            client.session == (Session {
                address,
                command_has_answer: true,
                max_buffer_size: DEFAULT_MAX_BUFFER_SIZE,
                timeout_config: client.session.timeout_config,
                keep_alive: false,
                ping_state: PingState {
                    last_activity: now,
                    running: false,
                    should_stop: false,
                    status_owed: false,
                    config: PingConfig {
                        interval: client.session.timeout_config.ping_interval,
                        enabled: true,
                    },
                    timeout_config: client.session.timeout_config,
                },
            }),
    {
        ClientTL { session: Session::new(address, now) }
    }

    /// Sets the limit for response payloads; zero resets it to the default.
    pub fn set_max_buffer_size(&mut self, buffer_size: usize)
        ensures
            old(self).wf() ==> final(self).wf(),
            *final(self) == (ClientTL {
                session: Session {
                    max_buffer_size: buffer_limit(buffer_size),
                    ..old(self).session
                },
            }),
            buffer_size > 0 ==> final(self).session.max_buffer_size == buffer_size,
            buffer_size == 0 ==> final(self).session.max_buffer_size == 10_485_760,
    {
        self.session.set_max_buffer_size(buffer_size);
    }

    /// Sets whether responses are waited for. Without, `handle_message` gives an empty
    /// response as soon as the request is sent, and does not wait for a response header.
    pub fn set_command_has_answer(&mut self, command_has_answer: bool)
        ensures
            old(self).wf() ==> final(self).wf(),
            *final(self) == (ClientTL {
                session: Session { command_has_answer, ..old(self).session },
            }),
    {
        self.session.set_command_has_answer(command_has_answer);
    }

    /// Switches connection reuse on or off. Where it was on and is switched off, the ping
    /// task is told to stop and the connection is to be released.
    pub fn set_keep_alive(&mut self, enabled: bool) -> (release: Option<Release>)
        ensures
            old(self).wf() ==> final(self).wf(),
            *final(self) == (ClientTL { session: old(self).session.with_keep_alive(enabled) }),
            release is Some <==> !enabled && old(self).session.keep_alive,
            release matches Some(duty) ==> span(duty.patience) == old(self).session.patience(),
            release matches Some(duty) ==> span(duty.patience) == if old(
                self,
            ).session.ping_state.running {
                Some(5_000_000_000nat)
            } else {
                None
            },
            final(self).session.keep_alive == enabled,
            final(self).session.timeout_config == old(self).session.timeout_config,
            final(self).session.ping_state.config.enabled == (enabled && old(
                self,
            ).session.ping_state.config.interval@ > 0),
    {
        self.session.set_keep_alive(enabled)
    }

    /// Sets the time limits, with the ping interval lowered where needed to stay below
    /// `read_header`. Fails, and changes nothing, where `read_header` is zero.
    pub fn set_timeout_config(&mut self, timeout_config: TimeoutConfig) -> (result: Result<()>)
        ensures
            old(self).wf() ==> final(self).wf(),
            timeout_config.read_header@ > 0 ==> {
                let config = final(self).session.timeout_config;
                &&& result is Ok
                &&& config.has_interval(
                    timeout_config,
                    clamped_interval(timeout_config.ping_interval@, timeout_config.read_header@),
                )
                &&& config.pings_in_time()
                &&& *final(self) == (ClientTL { session: old(self).session.with_timeouts(config) })
            },
            timeout_config.read_header@ == 0 ==> {
                &&& outcome(result) == Err::<(), _>(TimeoutConfig::interval_error(0, 0))
                &&& *final(self) == *old(self)
            },
            result is Ok <==> timeout_config.read_header@ > 0,
            result is Ok ==> {
                let config = final(self).session.timeout_config;
                let interval = timeout_config.ping_interval@;
                let read_header = timeout_config.read_header@;
                &&& config.connect == timeout_config.connect
                &&& config.read_header == timeout_config.read_header
                &&& config.read_data == timeout_config.read_data
                &&& config.write == timeout_config.write
                &&& config.keep_alive == timeout_config.keep_alive
                &&& config.ping_interval@ < read_header
                &&& interval < read_header ==> config.ping_interval@ == interval
                &&& interval >= read_header >= 2_000_000_000 ==> config.ping_interval@
                    + 1_000_000_000 == read_header
                &&& interval >= read_header && read_header < 2_000_000_000 ==> 2
                    * config.ping_interval@ <= read_header <= 2 * config.ping_interval@ + 1
                &&& final(self).session.ping_state.config.interval == config.ping_interval
                &&& final(self).session.ping_state.config.enabled == (old(self).session.keep_alive
                    && config.ping_interval@ > 0)
                &&& final(self).session.ping_state.timeout_config == config
            },
    {
        self.session.set_timeout_config(timeout_config)
    }

    /// Begins to establish a connection.
    pub fn connect(&self) -> (machine: Connect)
        ensures
            machine@ == Connect::opening(Security::Plain),
            machine.security is Plain,
            machine.stage == (ConnectStage::<Duration>::Dial { tries: 0 }),
    {
        Connect::begin(Security::Plain)
    }

    /// Begins to close the connection, and tells the ping task to stop.
    pub fn disconnect(&mut self) -> (machine: Disconnect)
        ensures
            old(self).wf() ==> final(self).wf(),
            machine@ == Disconnect::opening(old(self).session),
            old(self).session.ping_state.running ==> {
                &&& machine matches Disconnect::Collect { patience }
                &&& patience@ == 5_000_000_000
            },
            !old(self).session.ping_state.running ==> machine is Open,
            final(self).session.ping_state.should_stop,
            !final(self).session.ping_state.running,
            *final(self) == (ClientTL {
                session: old(self).session.with_ping(old(self).session.ping_state.stopped()),
            }),
    {
        Disconnect::begin(&mut self.session)
    }

    /// Begins to send a request and to receive its response. `connected` says whether
    /// there is a stream.
    pub fn handle_message(&self, command: u32, request_data: &[u8], connected: bool) -> (machine:
        HandleMessage)
        ensures
            machine@ == HandleMessage::opening(
                self.session,
                Security::Plain,
                first_exchange(
                    self.session,
                    Security::Plain,
                    command,
                    request_data@,
                    self.session.command_has_answer,
                    connected,
                ),
                connected,
            ),
            self.session.keep_alive && connected ==> {
                &&& machine matches HandleMessage::Claiming(exchange)
                &&& exchange.stage is Quiet
                &&& exchange.transport == Transport::Tcp
                &&& exchange.command == command
                &&& exchange.data@ == request_data@
                &&& exchange.command_has_answer == self.session.command_has_answer
                &&& exchange.max_buffer_size == self.session.max_buffer_size
                &&& exchange.timeouts == self.session.timeout_config
                &&& !exchange.status_owed
            },
            !(self.session.keep_alive && connected) ==> {
                &&& machine matches HandleMessage::Connecting { connect, exchange }
                &&& connect.security@ == Security::<Seq<char>>::Plain
                &&& exchange.stage is RequestHeader
                &&& exchange.transport == Transport::Tcp
                &&& exchange.command == command
                &&& exchange.data@ == request_data@
                &&& exchange.command_has_answer == self.session.command_has_answer
                &&& exchange.max_buffer_size == self.session.max_buffer_size
                &&& exchange.timeouts == self.session.timeout_config
                &&& !exchange.status_owed
            },
            forall|events: Seq<(Duration, MessageEvent<Seq<u8>, Seq<char>>)>|
                {
                    let writes = #[trigger] machine@.writes(self.session, events);
                    &&& writes.len() <= 3
                    &&& writes.len() > 0 ==> {
                        &&& writes[0].len() == 8
                        &&& forall|i: int|
                            0 <= i < 4 ==> #[trigger] writes[0][i] == (command as int / pow(
                                256,
                                (3 - i) as nat,
                            )) % 256
                        &&& forall|i: int|
                            4 <= i < 8 ==> #[trigger] writes[0][i] == (request_data@.len() as int
                                / pow(256, (7 - i) as nat)) % 256
                    }
                    &&& writes.len() > 1 ==> writes[1] == request_data@
                    &&& writes.len() > 2 ==> writes[2] == seq![1u8]
                },
    {
        proof {
            whatever_happens_messages_are_written_as_given(
                self.session,
                Security::Plain,
                command,
                request_data@,
                self.session.command_has_answer,
                connected,
            );
        }
        HandleMessage::begin(
            &self.session,
            Security::Plain,
            command,
            request_data,
            self.session.command_has_answer,
            connected,
        )
    }

    /// Begins to send a request whose response is not waited for, and is empty. The setting
    /// of `set_command_has_answer` is passed over for this one message.
    pub fn handle_message_with_no_answer(
        &self,
        command: u32,
        request_data: &[u8],
        connected: bool,
    ) -> (machine: HandleMessage)
        ensures
            machine@ == HandleMessage::opening(
                self.session,
                Security::Plain,
                first_exchange(
                    self.session,
                    Security::Plain,
                    command,
                    request_data@,
                    false,
                    connected,
                ),
                connected,
            ),
            self.session.keep_alive && connected ==> {
                &&& machine matches HandleMessage::Claiming(exchange)
                &&& exchange.stage is Quiet
                &&& exchange.transport == Transport::Tcp
                &&& exchange.command == command
                &&& exchange.data@ == request_data@
                &&& exchange.command_has_answer == false
                &&& exchange.max_buffer_size == self.session.max_buffer_size
                &&& exchange.timeouts == self.session.timeout_config
                &&& !exchange.status_owed
            },
            !(self.session.keep_alive && connected) ==> {
                &&& machine matches HandleMessage::Connecting { connect, exchange }
                &&& connect.security@ == Security::<Seq<char>>::Plain
                &&& exchange.stage is RequestHeader
                &&& exchange.transport == Transport::Tcp
                &&& exchange.command == command
                &&& exchange.data@ == request_data@
                &&& exchange.command_has_answer == false
                &&& exchange.max_buffer_size == self.session.max_buffer_size
                &&& exchange.timeouts == self.session.timeout_config
                &&& !exchange.status_owed
            },
            forall|events: Seq<(Duration, MessageEvent<Seq<u8>, Seq<char>>)>|
                {
                    let writes = #[trigger] machine@.writes(self.session, events);
                    &&& writes.len() <= 3
                    &&& writes.len() > 0 ==> {
                        &&& writes[0].len() == 8
                        &&& forall|i: int|
                            0 <= i < 4 ==> #[trigger] writes[0][i] == (command as int / pow(
                                256,
                                (3 - i) as nat,
                            )) % 256
                        &&& forall|i: int|
                            4 <= i < 8 ==> #[trigger] writes[0][i] == (request_data@.len() as int
                                / pow(256, (7 - i) as nat)) % 256
                    }
                    &&& writes.len() > 1 ==> writes[1] == request_data@
                    &&& writes.len() > 2 ==> writes[2] == seq![1u8]
                },
    {
        proof {
            whatever_happens_messages_are_written_as_given(
                self.session,
                Security::Plain,
                command,
                request_data@,
                false,
                connected,
            );
        }
        HandleMessage::begin(
            &self.session,
            Security::Plain,
            command,
            request_data,
            false,
            connected,
        )
    }
}

} // verus!
