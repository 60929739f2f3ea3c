//! Establishing a connection.

use vstd::prelude::*;

use crate::duration::{Duration, NANOS_PER_SEC};
use crate::error::Error;
use crate::ping::{PingState, PingTask};
use crate::session::Session;
use crate::timeout_config::KeepAliveConfig;
use crate::transport::Progress;

verus! {

/// The number of times that a server is dialled.
pub const MAX_DIALS: u8 = 10;

/// What protects a connection.
#[derive(Debug)]
pub enum Security<S = String> {
    /// Nothing.
    Plain,
    /// TLS, for a server of the name `domain`.
    Tls { accept_invalid_certs: bool, domain: S },
}

/// How far a connection has been established.
#[derive(Debug, Clone, Copy)]
pub enum ConnectStage<D = Duration> {
    /// TLS is to be set up.
    Prepare,
    /// The server is to be dialled, after `tries` failures.
    Dial { tries: u8 },
    /// Keep-alive probes are to be configured.
    Configure,
    /// TLS is to be negotiated.
    Handshake,
    /// The stream is to be put in place.
    Install,
    /// The ping task is to be run.
    Spawn { task: PingTask<D> },
    /// A pause is made after a failed attempt.
    Pause { tries: u8 },
}

/// Establishes a connection, in up to [`MAX_DIALS`] attempts.
#[derive(Debug)]
pub struct Connect<S = String, D = Duration> {
    pub security: Security<S>,
    pub stage: ConnectStage<D>,
}

/// What establishing a connection asks for.
#[derive(Debug)]
pub enum ConnectAction<S = String, D = Duration> {
    /// Set up a TLS connector.
    Prepare { accept_invalid_certs: bool },
    /// Open a TCP connection.
    Dial { address: S, timeout: D },
    /// Switch keep-alive probes on, with this timing where there is one. A failure to
    /// do so is no reason to give the connection up.
    Configure { probes: Option<KeepAliveConfig> },
    /// Negotiate TLS.
    Handshake { domain: S },
    /// Put the stream where requests and pings find it.
    Install,
    /// Run the ping task.
    Spawn { task: PingTask<D> },
    /// Wait.
    Pause(D),
}

/// What came of it.
#[derive(Debug)]
pub enum ConnectEvent<S = String> {
    /// It was done.
    Completed,
    /// It failed.
    Failed(S),
    /// Dialling took too long.
    TimedOut,
}

impl View for Security {
    type V = Security<Seq<char>>;

    open spec fn view(&self) -> Security<Seq<char>> {
        match self {
            Security::Plain => Security::Plain,
            Security::Tls { accept_invalid_certs, domain } => Security::Tls {
                accept_invalid_certs: *accept_invalid_certs,
                domain: domain@,
            },
        }
    }
}

impl View for ConnectStage {
    type V = ConnectStage<nat>;

    open spec fn view(&self) -> ConnectStage<nat> {
        match self {
            ConnectStage::Prepare => ConnectStage::Prepare,
            ConnectStage::Dial { tries } => ConnectStage::Dial { tries: *tries },
            ConnectStage::Configure => ConnectStage::Configure,
            ConnectStage::Handshake => ConnectStage::Handshake,
            ConnectStage::Install => ConnectStage::Install,
            ConnectStage::Spawn { task } => ConnectStage::Spawn { task: task@ },
            ConnectStage::Pause { tries } => ConnectStage::Pause { tries: *tries },
        }
    }
}

impl View for Connect {
    type V = Connect<Seq<char>, nat>;

    open spec fn view(&self) -> Connect<Seq<char>, nat> {
        Connect { security: self.security@, stage: self.stage@ }
    }
}

impl View for ConnectAction {
    type V = ConnectAction<Seq<char>, nat>;

    open spec fn view(&self) -> ConnectAction<Seq<char>, nat> {
        match self {
            ConnectAction::Prepare { accept_invalid_certs } => ConnectAction::Prepare {
                accept_invalid_certs: *accept_invalid_certs,
            },
            ConnectAction::Dial { address, timeout } => ConnectAction::Dial {
                address: address@,
                timeout: timeout@,
            },
            ConnectAction::Configure { probes } => ConnectAction::Configure { probes: *probes },
            ConnectAction::Handshake { domain } => ConnectAction::Handshake { domain: domain@ },
            ConnectAction::Install => ConnectAction::Install,
            ConnectAction::Spawn { task } => ConnectAction::Spawn { task: task@ },
            ConnectAction::Pause(pause) => ConnectAction::Pause(pause@),
        }
    }
}

impl View for ConnectEvent {
    type V = ConnectEvent<Seq<char>>;

    open spec fn view(&self) -> ConnectEvent<Seq<char>> {
        match self {
            ConnectEvent::Completed => ConnectEvent::Completed,
            ConnectEvent::Failed(text) => ConnectEvent::Failed(text@),
            ConnectEvent::TimedOut => ConnectEvent::TimedOut,
        }
    }
}

impl Security<Seq<char>> {
    /// Where establishing a connection begins.
    pub open spec fn first_stage(self) -> ConnectStage<nat> {
        match self {
            Security::Plain => ConnectStage::Dial { tries: 0 },
            Security::Tls { .. } => ConnectStage::Prepare,
        }
    }

    /// What follows a TCP connection that is configured.
    pub open spec fn next_stage(self) -> ConnectStage<nat> {
        match self {
            Security::Plain => ConnectStage::Install,
            Security::Tls { .. } => ConnectStage::Handshake,
        }
    }
}

impl Connect<Seq<char>, nat> {
    /// The beginning.
    pub open spec fn opening(security: Security<Seq<char>>) -> Connect<Seq<char>, nat> {
        Connect { security, stage: security.first_stage() }
    }

    pub open spec fn at(self, stage: ConnectStage<nat>) -> Connect<Seq<char>, nat> {
        Connect { stage, ..self }
    }

    /// What is due.
    pub open spec fn due(self, session: Session) -> ConnectAction<Seq<char>, nat> {
        match self.stage {
            ConnectStage::Prepare => ConnectAction::Prepare {
                accept_invalid_certs: match self.security {
                    Security::Plain => false,
                    Security::Tls { accept_invalid_certs, .. } => accept_invalid_certs,
                },
            },
            ConnectStage::Dial { .. } => ConnectAction::Dial {
                address: session.address@,
                timeout: session.timeout_config.connect@,
            },
            ConnectStage::Configure => ConnectAction::Configure {
                probes: session.timeout_config.keep_alive,
            },
            ConnectStage::Handshake => ConnectAction::Handshake {
                domain: match self.security {
                    Security::Plain => seq![],
                    Security::Tls { domain, .. } => domain,
                },
            },
            ConnectStage::Install => ConnectAction::Install,
            ConnectStage::Spawn { task } => ConnectAction::Spawn { task },
            ConnectStage::Pause { .. } => ConnectAction::Pause(NANOS_PER_SEC as nat),
        }
    }

    /// Where the machine stands after `event`. An event that does not answer what is due
    /// changes nothing.
    pub open spec fn after(self, session: Session, event: ConnectEvent<Seq<char>>) -> Progress<
        Connect<Seq<char>, nat>,
        (),
        Seq<char>,
    > {
        match (self.stage, event) {
            (ConnectStage::Prepare, ConnectEvent::Completed) => Progress::Pending(
                self.at(ConnectStage::Dial { tries: 0 }),
            ),
            (ConnectStage::Prepare, ConnectEvent::Failed(text)) => Progress::Finished(
                Err(Error::Tls(text)),
            ),
            (ConnectStage::Dial { .. }, ConnectEvent::Completed) => Progress::Pending(
                self.at(
                    if session.keep_alive {
                        ConnectStage::Configure
                    } else {
                        self.security.next_stage()
                    },
                ),
            ),
            (ConnectStage::Dial { tries }, ConnectEvent::Failed(_)) => Progress::Pending(
                self.at(ConnectStage::Pause { tries }),
            ),
            (ConnectStage::Dial { tries }, ConnectEvent::TimedOut) => Progress::Pending(
                self.at(ConnectStage::Pause { tries }),
            ),
            (ConnectStage::Configure, ConnectEvent::Completed) => Progress::Pending(
                self.at(self.security.next_stage()),
            ),
            (ConnectStage::Configure, ConnectEvent::Failed(_)) => Progress::Pending(
                self.at(self.security.next_stage()),
            ),
            (ConnectStage::Handshake, ConnectEvent::Completed) => Progress::Pending(
                self.at(ConnectStage::Install),
            ),
            (ConnectStage::Handshake, ConnectEvent::Failed(text)) => Progress::Finished(
                Err(Error::Tls(text)),
            ),
            (ConnectStage::Install, ConnectEvent::Completed) => if session.keep_alive
                && session.ping_state.config.enabled {
                Progress::Pending(
                    self.at(ConnectStage::Spawn { task: PingTask::asleep(session.ping_state) }),
                )
            } else {
                Progress::Finished(Ok(()))
            },
            (ConnectStage::Spawn { .. }, ConnectEvent::Completed) => Progress::Finished(Ok(())),
            (ConnectStage::Pause { tries }, ConnectEvent::Completed) => if tries + 1 < MAX_DIALS {
                Progress::Pending(self.at(ConnectStage::Dial { tries: (tries + 1) as u8 }))
            } else {
                Progress::Finished(Err(Error::Msg("Connection error, max retries reached"@)))
            },
            _ => Progress::Pending(self),
        }
    }

    /// The ping state after `event`: once the stream is in place nothing is owed on it, and
    /// the ping task starts where connections are kept and pings are enabled.
    pub open spec fn ping_after(
        self,
        session: Session,
        event: ConnectEvent<Seq<char>>,
    ) -> PingState {
        if self.stage is Install && event is Completed {
            let fresh = PingState { status_owed: false, ..session.ping_state };
            if session.keep_alive {
                fresh.started()
            } else {
                fresh
            }
        } else {
            session.ping_state
        }
    }
}

impl Connect {
    /// Begins to establish a connection.
    pub fn begin(security: Security) -> (machine: Connect)
        ensures
            machine@ == Connect::opening(security@),
            machine.security == security,
            security is Plain ==> machine.stage == (ConnectStage::<Duration>::Dial { tries: 0 }),
            security is Tls ==> machine.stage is Prepare,
    {
        let stage = match &security {
            Security::Plain => ConnectStage::Dial { tries: 0 },
            Security::Tls { .. } => ConnectStage::Prepare,
        };
        Connect { security, stage }
    }

    fn next_stage(&self) -> (stage: ConnectStage)
        ensures
            stage@ == self.security@.next_stage(),
    {
        match &self.security {
            Security::Plain => ConnectStage::Install,
            Security::Tls { .. } => ConnectStage::Handshake,
        }
    }

    /// What is due.
    pub fn action(&self, session: &Session) -> (action: ConnectAction)
        ensures
            action@ == self@.due(*session),
    {
        match &self.stage {
            ConnectStage::Prepare => ConnectAction::Prepare {
                accept_invalid_certs: match &self.security {
                    Security::Plain => false,
                    Security::Tls { accept_invalid_certs, .. } => *accept_invalid_certs,
                },
            },
            ConnectStage::Dial { .. } => ConnectAction::Dial {
                address: session.address.clone(),
                timeout: session.timeout_config.connect,
            },
            ConnectStage::Configure => ConnectAction::Configure {
                probes: session.timeout_config.keep_alive,
            },
            ConnectStage::Handshake => ConnectAction::Handshake {
                domain: match &self.security {
                    Security::Plain => String::new(),
                    Security::Tls { domain, .. } => domain.clone(),
                },
            },
            ConnectStage::Install => ConnectAction::Install,
            ConnectStage::Spawn { task } => ConnectAction::Spawn { task: *task },
            ConnectStage::Pause { .. } => ConnectAction::Pause(Duration::from_secs(1)),
        }
    }

    fn completed(self, session: &mut Session) -> (progress: Progress<Connect, ()>)
        ensures
            progress@ == self@.after(*old(session), ConnectEvent::Completed),
            *final(session) == old(session).with_ping(
                self@.ping_after(*old(session), ConnectEvent::Completed),
            ),
    {
        let stage = match self.stage {
            ConnectStage::Prepare => ConnectStage::Dial { tries: 0 },
            ConnectStage::Dial { .. } => {
                if session.keep_alive {
                    ConnectStage::Configure
                } else {
                    self.next_stage()
                }
            },
            ConnectStage::Configure => self.next_stage(),
            ConnectStage::Handshake => ConnectStage::Install,
            ConnectStage::Install => {
                session.ping_state.status_owed = false;
                if !session.keep_alive {
                    return Progress::Finished(Ok(()));
                }
                match session.ping_state.start_ping_task() {
                    Some(task) => ConnectStage::Spawn { task },
                    None => {
                        return Progress::Finished(Ok(()));
                    },
                }
            },
            ConnectStage::Spawn { .. } => {
                return Progress::Finished(Ok(()));
            },
            ConnectStage::Pause { tries } => {
                if tries >= MAX_DIALS - 1 {
                    return Progress::Finished(
                        Err(Error::Msg("Connection error, max retries reached".to_owned())),
                    );
                }
                ConnectStage::Dial { tries: tries + 1 }
            },
        };
        Progress::Pending(Connect { stage, ..self })
    }

    fn failed(self, text: String) -> (progress: Progress<Connect, ()>)
        ensures
            forall|session: Session|
                progress@ == #[trigger] self@.after(session, ConnectEvent::Failed(text@)),
    {
        let stage = match self.stage {
            ConnectStage::Prepare | ConnectStage::Handshake => {
                return Progress::Finished(Err(Error::Tls(text)));
            },
            ConnectStage::Dial { tries } => ConnectStage::Pause { tries },
            ConnectStage::Configure => self.next_stage(),
            stage => stage,
        };
        Progress::Pending(Connect { stage, ..self })
    }

    /// Takes in what came of what was due.
    pub fn advance(self, session: &mut Session, event: ConnectEvent) -> (progress: Progress<
        Connect,
        (),
    >)
        ensures
            progress@ == self@.after(*old(session), event@),
            *final(session) == old(session).with_ping(self@.ping_after(*old(session), event@)),
    {
        match event {
            ConnectEvent::Completed => self.completed(session),
            ConnectEvent::Failed(text) => self.failed(text),
            ConnectEvent::TimedOut => match self.stage {
                ConnectStage::Dial { tries } => Progress::Pending(
                    Connect { stage: ConnectStage::Pause { tries }, ..self },
                ),
                _ => Progress::Pending(self),
            },
        }
    }
}

impl Connect<Seq<char>, nat> {
    /// Where a machine stands after a series of events.
    pub open spec fn run(self, session: Session, events: Seq<ConnectEvent<Seq<char>>>) -> Progress<
        Connect<Seq<char>, nat>,
        (),
        Seq<char>,
    >
        decreases events.len(),
    {
        if events.len() == 0 {
            Progress::Pending(self)
        } else {
            match self.after(session, events[0]) {
                Progress::Pending(next) => next.run(
                    session.with_ping(self.ping_after(session, events[0])),
                    events.skip(1),
                ),
                finished => finished,
            }
        }
    }

    /// How often the server is dialled in the course of a series of events.
    pub open spec fn dials(self, session: Session, events: Seq<ConnectEvent<Seq<char>>>) -> nat
        decreases events.len(),
    {
        if events.len() == 0 {
            0
        } else {
            let first: nat = if self.stage is Dial {
                1
            } else {
                0
            };
            match self.after(session, events[0]) {
                Progress::Pending(next) => first + next.dials(
                    session.with_ping(self.ping_after(session, events[0])),
                    events.skip(1),
                ),
                _ => first,
            }
        }
    }

    /// Where a machine stands after so many failed attempts: at the next one, or at the
    /// end.
    pub open spec fn after_failures(self, count: int) -> Progress<
        Connect<Seq<char>, nat>,
        (),
        Seq<char>,
    > {
        if count < MAX_DIALS {
            Progress::Pending(self.at(ConnectStage::Dial { tries: count as u8 }))
        } else {
            Progress::Finished(Err(Error::Msg("Connection error, max retries reached"@)))
        }
    }

    /// How often the server may still be dialled.
    spec fn dials_left(self) -> int {
        match self.stage {
            ConnectStage::Prepare => MAX_DIALS as int,
            ConnectStage::Dial { tries } => MAX_DIALS - tries,
            ConnectStage::Pause { tries } => if tries < MAX_DIALS {
                MAX_DIALS - tries - 1
            } else {
                0
            },
            _ => 0,
        }
    }
}

proof fn dials_are_left(
    machine: Connect<Seq<char>, nat>,
    session: Session,
    events: Seq<ConnectEvent<Seq<char>>>,
)
    requires
        machine.stage matches ConnectStage::Dial { tries } ==> tries < MAX_DIALS,
    ensures
        machine.dials(session, events) <= machine.dials_left(),
    decreases events.len(),
{
    if events.len() > 0 {
        match machine.after(session, events[0]) {
            Progress::Pending(next) => {
                dials_are_left(
                    next,
                    session.with_ping(machine.ping_after(session, events[0])),
                    events.skip(1),
                );
            },
            _ => {},
        }
    }
}

/// Whatever happens, the server is dialled at most [`MAX_DIALS`] times.
pub proof fn dials_are_bounded(
    security: Security<Seq<char>>,
    session: Session,
    events: Seq<ConnectEvent<Seq<char>>>,
)
    ensures
        Connect::opening(security).dials(session, events) <= MAX_DIALS,
        Connect::opening(security).dials(session, events) <= 10,
{
    dials_are_left(Connect::opening(security), session, events);
}

/// A failed attempt to dial.
pub open spec fn dial_failed(event: ConnectEvent<Seq<char>>) -> bool {
    event is Failed || event is TimedOut
}

/// The events of attempts that came to `outcomes`, each followed by a pause.
pub open spec fn attempts(outcomes: Seq<ConnectEvent<Seq<char>>>) -> Seq<
    ConnectEvent<Seq<char>>,
>
    decreases outcomes.len(),
{
    if outcomes.len() == 0 {
        seq![]
    } else {
        seq![outcomes[0], ConnectEvent::Completed] + attempts(outcomes.skip(1))
    }
}

/// The events that lead up to the first attempt.
pub open spec fn preparation(security: Security<Seq<char>>) -> Seq<ConnectEvent<Seq<char>>> {
    match security {
        Security::Plain => seq![],
        Security::Tls { .. } => seq![ConnectEvent::Completed],
    }
}

proof fn failures_are_counted(
    machine: Connect<Seq<char>, nat>,
    session: Session,
    tries: u8,
    outcomes: Seq<ConnectEvent<Seq<char>>>,
)
    requires
        machine.stage == (ConnectStage::<nat>::Dial { tries }),
        tries + outcomes.len() <= MAX_DIALS,
        tries < MAX_DIALS,
        forall|i: int| 0 <= i < outcomes.len() ==> dial_failed(#[trigger] outcomes[i]),
    ensures
        machine.dials(session, attempts(outcomes)) == outcomes.len(),
        machine.run(session, attempts(outcomes)) == machine.after_failures(
            tries + outcomes.len(),
        ),
    decreases outcomes.len(),
{
    reveal_with_fuel(attempts, 2);
    reveal_with_fuel(Connect::<_, _>::run, 3);
    reveal_with_fuel(Connect::<_, _>::dials, 3);
    if outcomes.len() > 0 {
        let events = attempts(outcomes);
        let rest = outcomes.skip(1);
        assert(events.skip(1).skip(1) =~= attempts(rest));
        assert(events[0] == outcomes[0]);
        assert(dial_failed(outcomes[0]));
        assert(events.skip(1)[0] == ConnectEvent::<Seq<char>>::Completed);
        assert(session.with_ping(session.ping_state) == session);
        assert forall|i: int| 0 <= i < rest.len() implies dial_failed(#[trigger] rest[i]) by {
            assert(rest[i] == outcomes[i + 1]);
        }
        if tries + 1 < MAX_DIALS {
            let next = machine.at(ConnectStage::Dial { tries: (tries + 1) as u8 });
            failures_are_counted(next, session, (tries + 1) as u8, rest);
        }
    }
}

/// Failed attempts, whether they failed or took too long, are made up for by further ones
/// until there were [`MAX_DIALS`]; then the connection is given up, whatever protects it
/// and whatever stream is held.
pub proof fn failed_dials_are_repeated(
    security: Security<Seq<char>>,
    session: Session,
    outcomes: Seq<ConnectEvent<Seq<char>>>,
)
    requires
        outcomes.len() <= MAX_DIALS,
        forall|i: int| 0 <= i < outcomes.len() ==> dial_failed(#[trigger] outcomes[i]),
    ensures
        ({
            let machine = Connect::opening(security);
            let events = preparation(security) + attempts(outcomes);
            &&& machine.dials(session, events) == outcomes.len()
            &&& machine.run(session, events) == machine.after_failures(outcomes.len() as int)
        }),
{
    let machine = Connect::opening(security);
    let events = preparation(security) + attempts(outcomes);
    let dialling = machine.at(ConnectStage::Dial { tries: 0 });
    failures_are_counted(dialling, session, 0, outcomes);
    match security {
        Security::Plain => {
            assert(events =~= attempts(outcomes));
        },
        Security::Tls { .. } => {
            assert(events.skip(1) =~= attempts(outcomes));
            assert(session.with_ping(session.ping_state) == session);
        },
    }
}

/// The first attempt that reaches the server is the last one.
pub proof fn a_completed_dial_is_the_last(
    machine: Connect<Seq<char>, nat>,
    session: Session,
    events: Seq<ConnectEvent<Seq<char>>>,
)
    requires
        machine.stage is Dial,
        events.len() > 0,
        events[0] is Completed,
    ensures
        machine.dials(session, events) == 1,
{
    let next = machine.after(session, events[0])->Pending_0;
    dials_are_left(
        next,
        session.with_ping(machine.ping_after(session, events[0])),
        events.skip(1),
    );
}

/// A connection fails only where all attempts did, or where TLS does. No error of a single
/// attempt is handed out.
pub proof fn connections_fail_for_a_reason(
    machine: Connect<Seq<char>, nat>,
    session: Session,
    event: ConnectEvent<Seq<char>>,
)
    ensures
        machine.after(session, event) matches Progress::Finished(Err(error)) ==> {
            ||| {
                &&& machine.stage matches ConnectStage::Pause { tries } && tries + 1 >= MAX_DIALS
                &&& error == Error::Msg("Connection error, max retries reached"@)
            }
            ||| {
                &&& machine.stage is Prepare || machine.stage is Handshake
                &&& event == ConnectEvent::Failed(error->Tls_0)
                &&& error is Tls
            }
        },
{
}

/// Only a stream is put in place that protects what it should: under TLS, one whose
/// handshake for the domain was completed.
pub proof fn streams_are_protected(
    machine: Connect<Seq<char>, nat>,
    session: Session,
    event: ConnectEvent<Seq<char>>,
)
    requires
        machine.after(session, event) is Pending,
        machine.after(session, event)->Pending_0.stage is Install,
        !(machine.stage is Install),
    ensures
        machine.security matches Security::Tls { domain, .. } ==> {
            &&& machine.due(session) == (ConnectAction::<_, nat>::Handshake { domain })
            &&& event is Completed
        },
        machine.after(session, event)->Pending_0.security == machine.security,
{
}

/// Once the stream is in place, a ping task runs exactly where connections are kept and
/// pings are enabled.
pub proof fn kept_connections_are_pinged(machine: Connect<Seq<char>, nat>, session: Session)
    requires
        machine.stage is Install,
    ensures
        session.keep_alive && session.ping_state.config.enabled ==> {
            &&& machine.after(session, ConnectEvent::Completed) == Progress::<
                Connect<Seq<char>, nat>,
                (),
                Seq<char>,
            >::Pending(
                machine.at(ConnectStage::Spawn { task: PingTask::asleep(session.ping_state) }),
            )
            &&& machine.ping_after(session, ConnectEvent::Completed) == (PingState {
                running: true,
                should_stop: false,
                status_owed: false,
                ..session.ping_state
            })
        },
        !(session.keep_alive && session.ping_state.config.enabled) ==> {
            &&& machine.after(session, ConnectEvent::Completed) == Progress::<
                Connect<Seq<char>, nat>,
                (),
                Seq<char>,
            >::Finished(Ok(()))
            &&& machine.ping_after(session, ConnectEvent::Completed) == (PingState {
                status_owed: false,
                ..session.ping_state
            })
        },
{
}

/// Ten attempts are made, no fewer and no more: after up to nine failures another one is
/// due, and the tenth failure is the end.
pub proof fn there_are_ten_attempts(
    security: Security<Seq<char>>,
    session: Session,
    outcomes: Seq<ConnectEvent<Seq<char>>>,
)
    requires
        outcomes.len() <= 10,
        forall|i: int| 0 <= i < outcomes.len() ==> dial_failed(#[trigger] outcomes[i]),
    ensures
        ({
            let machine = Connect::opening(security);
            let events = preparation(security) + attempts(outcomes);
            let end = machine.run(session, events);
            &&& machine.dials(session, events) == outcomes.len()
            &&& outcomes.len() < 10 ==> {
                &&& end is Pending
                &&& end->Pending_0.due(session) == (ConnectAction::<Seq<char>, nat>::Dial {
                    address: session.address@,
                    timeout: session.timeout_config.connect@,
                })
            }
            &&& outcomes.len() == 10 ==> end == Progress::<
                Connect<Seq<char>, nat>,
                (),
                Seq<char>,
            >::Finished(Err(Error::Msg("Connection error, max retries reached"@)))
        }),
{
    failed_dials_are_repeated(security, session, outcomes);
}

/// Each failed attempt is followed by a pause of one second, whatever it failed from.
pub proof fn attempts_are_spaced(
    machine: Connect<Seq<char>, nat>,
    session: Session,
    event: ConnectEvent<Seq<char>>,
)
    requires
        machine.due(session) is Dial,
        event is Failed || event is TimedOut,
    ensures
        machine.after(session, event) is Pending,
        machine.after(session, event)->Pending_0.due(session) == ConnectAction::<
            Seq<char>,
            nat,
        >::Pause(1_000_000_000),
        machine.ping_after(session, event) == session.ping_state,
{
}

impl Connect<Seq<char>, nat> {
    /// What is asked for in the course of a series of events, and at its end.
    pub open spec fn asked(self, session: Session, events: Seq<ConnectEvent<Seq<char>>>) -> Seq<
        ConnectAction<Seq<char>, nat>,
    >
        decreases events.len(),
    {
        let later = if events.len() == 0 {
            seq![]
        } else {
            match self.after(session, events[0]) {
                Progress::Pending(next) => next.asked(
                    session.with_ping(self.ping_after(session, events[0])),
                    events.skip(1),
                ),
                _ => seq![],
            }
        };
        seq![self.due(session)] + later
    }

    /// The probes are still to come.
    spec fn unprobed(self) -> bool {
        ||| self.stage is Prepare
        ||| self.stage is Dial
        ||| self.stage is Configure
        ||| self.stage is Pause
    }
}

proof fn probes_come_first(
    machine: Connect<Seq<char>, nat>,
    session: Session,
    events: Seq<ConnectEvent<Seq<char>>>,
    i: int,
)
    requires
        session.keep_alive,
        machine.unprobed(),
        0 <= i < machine.asked(session, events).len(),
        ({
            let action = machine.asked(session, events)[i];
            action is Handshake || action is Install || action is Spawn
        }),
    ensures
        exists|j: int|
            0 <= j < i && #[trigger] machine.asked(session, events)[j] == (ConnectAction::<
                Seq<char>,
                nat,
            >::Configure { probes: session.timeout_config.keep_alive }),
    decreases events.len(),
{
    let asked = machine.asked(session, events);
    let probes = ConnectAction::<Seq<char>, nat>::Configure {
        probes: session.timeout_config.keep_alive,
    };
    assert(asked[0] == machine.due(session));
    assert(i > 0);
    if machine.stage is Configure {
        assert(asked[0] == probes);
    } else {
        let next = machine.after(session, events[0])->Pending_0;
        let later_session = session.with_ping(machine.ping_after(session, events[0]));
        let later = next.asked(later_session, events.skip(1));
        assert(asked[i] == later[i - 1]);
        probes_come_first(next, later_session, events.skip(1), i - 1);
        let j = choose|j: int| 0 <= j < i - 1 && #[trigger] later[j] == probes;
        assert(asked[j + 1] == probes);
    }
}

proof fn nothing_is_probed(
    machine: Connect<Seq<char>, nat>,
    session: Session,
    events: Seq<ConnectEvent<Seq<char>>>,
    i: int,
)
    requires
        !session.keep_alive,
        !(machine.stage is Configure),
        0 <= i < machine.asked(session, events).len(),
    ensures
        !(machine.asked(session, events)[i] is Configure),
    decreases events.len(),
{
    if i > 0 {
        let next = machine.after(session, events[0])->Pending_0;
        let later_session = session.with_ping(machine.ping_after(session, events[0]));
        assert(machine.asked(session, events)[i] == next.asked(later_session, events.skip(1))[i
            - 1]);
        nothing_is_probed(next, later_session, events.skip(1), i - 1);
    }
}

/// Whatever protects a connection and whatever happens: where connections are kept, TLS is
/// negotiated and the stream is put in place only once keep-alive probes were configured,
/// as the session has them. Where they are not, no probes are configured.
pub proof fn kept_connections_are_probed_first(
    security: Security<Seq<char>>,
    session: Session,
    events: Seq<ConnectEvent<Seq<char>>>,
)
    ensures
        ({
            let asked = Connect::opening(security).asked(session, events);
            &&& session.keep_alive ==> forall|i: int|
                0 <= i < asked.len() && (asked[i] is Handshake || asked[i] is Install
                    || asked[i] is Spawn) ==> exists|j: int|
                    0 <= j < i && #[trigger] asked[j] == (ConnectAction::<
                        Seq<char>,
                        nat,
                    >::Configure { probes: session.timeout_config.keep_alive })
            &&& !session.keep_alive ==> forall|i: int|
                0 <= i < asked.len() ==> !(#[trigger] asked[i] is Configure)
        }),
{
    let machine = Connect::opening(security);
    let asked = machine.asked(session, events);
    if session.keep_alive {
        assert forall|i: int|
            0 <= i < asked.len() && (asked[i] is Handshake || asked[i] is Install
                || asked[i] is Spawn) implies exists|j: int|
            0 <= j < i && #[trigger] asked[j] == (ConnectAction::<Seq<char>, nat>::Configure {
                probes: session.timeout_config.keep_alive,
            }) by {
            probes_come_first(machine, session, events, i);
        }
    } else {
        assert forall|i: int| 0 <= i < asked.len() implies !(#[trigger] asked[i] is Configure) by {
            nothing_is_probed(machine, session, events, i);
        }
    }
}

/// A server that was reached is not dialled again: where connections are kept the probes
/// are due at once, and whatever comes of them, then the handshake for the domain under
/// TLS, or the stream is put in place.
pub proof fn reached_servers_are_set_up(
    machine: Connect<Seq<char>, nat>,
    session: Session,
    text: Seq<char>,
)
    requires
        machine.due(session) is Dial,
    ensures
        ({
            let next = machine.after(session, ConnectEvent::Completed)->Pending_0;
            let configured = next.after(session, ConnectEvent::Completed);
            let set_up = if session.keep_alive {
                configured->Pending_0
            } else {
                next
            };
            &&& machine.after(session, ConnectEvent::Completed) is Pending
            &&& session.keep_alive ==> {
                &&& next.due(session) == (ConnectAction::<Seq<char>, nat>::Configure {
                    probes: session.timeout_config.keep_alive,
                })
                &&& configured is Pending
                &&& next.after(session, ConnectEvent::Failed(text)) == configured
            }
            &&& match machine.security {
                Security::Plain => set_up.due(session) is Install,
                Security::Tls { domain, .. } => {
                    let shaken = set_up.after(session, ConnectEvent::Completed);
                    &&& set_up.due(session) == (ConnectAction::<_, nat>::Handshake { domain })
                    &&& shaken is Pending
                    &&& shaken->Pending_0.due(session) is Install
                    &&& set_up.after(session, ConnectEvent::Failed(text)) == Progress::<
                        Connect<Seq<char>, nat>,
                        (),
                        Seq<char>,
                    >::Finished(Err(Error::Tls(text)))
                },
            }
        }),
{
}

/// Under TLS a connector comes first, strict unless told otherwise, and without one the
/// server is not dialled. It is dialled at its address, within the limit for connecting.
pub proof fn servers_are_dialled(
    security: Security<Seq<char>>,
    session: Session,
    text: Seq<char>,
)
    ensures
        ({
            let machine = Connect::opening(security);
            let dialling = match security {
                Security::Plain => machine,
                Security::Tls { .. } => machine.after(
                    session,
                    ConnectEvent::Completed,
                )->Pending_0,
            };
            &&& security matches Security::Tls { accept_invalid_certs, .. } ==> {
                &&& machine.due(session) == (ConnectAction::<Seq<char>, nat>::Prepare {
                    accept_invalid_certs,
                })
                &&& machine.after(session, ConnectEvent::Completed) is Pending
                &&& machine.after(session, ConnectEvent::Failed(text)) == Progress::<
                    Connect<Seq<char>, nat>,
                    (),
                    Seq<char>,
                >::Finished(Err(Error::Tls(text)))
            }
            &&& dialling.security == security
            &&& dialling.due(session) == (ConnectAction::<Seq<char>, nat>::Dial {
                address: session.address@,
                timeout: session.timeout_config.connect@,
            })
        }),
{
}

/// A stream in place ends the attempt, after the ping task was run where one is due. What
/// was owed on the stream before is forgotten, and nothing else changes the ping state.
pub proof fn installed_streams_end_it(
    machine: Connect<Seq<char>, nat>,
    session: Session,
    event: ConnectEvent<Seq<char>>,
)
    ensures
        machine.due(session) is Install && event is Completed ==> {
            let next = machine.after(session, event);
            let before = session.ping_state;
            let after = machine.ping_after(session, event);
            let pings = session.keep_alive && session.ping_state.config.enabled;
            &&& pings ==> {
                &&& next is Pending
                &&& next->Pending_0.due(session) is Spawn
                &&& next->Pending_0.after(session, ConnectEvent::Completed) == Progress::<
                    Connect<Seq<char>, nat>,
                    (),
                    Seq<char>,
                >::Finished(Ok(()))
            }
            &&& !pings ==> next == Progress::<Connect<Seq<char>, nat>, (), Seq<char>>::Finished(
                Ok(()),
            )
            &&& !after.status_owed
            &&& after.running == (before.running || pings)
            &&& after.should_stop == (before.should_stop && !pings)
            &&& after.last_activity == before.last_activity
            &&& after.config == before.config
            &&& after.timeout_config == before.timeout_config
        },
        !(machine.due(session) is Install && event is Completed) ==> machine.ping_after(
            session,
            event,
        ) == session.ping_state,
{
}

/// Contracts speak of connections, of what they ask for and of what came of it part by
/// part.
pub proof fn connections_are_viewed_whole(
    connect: Connect,
    accept_invalid_certs: bool,
    name: String,
    tries: u8,
    task: PingTask,
    timeout: Duration,
    probes: Option<KeepAliveConfig>,
)
    ensures
        connect@.security == connect.security@,
        connect@.stage == connect.stage@,
        Security::<String>::Plain@ is Plain,
        (Security::Tls { accept_invalid_certs, domain: name })@ == (Security::Tls {
            accept_invalid_certs,
            domain: name@,
        }),
        ConnectStage::<Duration>::Prepare@ is Prepare,
        (ConnectStage::<Duration>::Dial { tries })@ == (ConnectStage::<nat>::Dial { tries }),
        ConnectStage::<Duration>::Configure@ is Configure,
        ConnectStage::<Duration>::Handshake@ is Handshake,
        ConnectStage::<Duration>::Install@ is Install,
        (ConnectStage::<Duration>::Spawn { task })@ == (ConnectStage::Spawn { task: task@ }),
        (ConnectStage::<Duration>::Pause { tries })@ == (ConnectStage::<nat>::Pause { tries }),
        (ConnectAction::<String, Duration>::Prepare { accept_invalid_certs })@ == (ConnectAction::<
            Seq<char>,
            nat,
        >::Prepare { accept_invalid_certs }),
        (ConnectAction::<String, Duration>::Dial { address: name, timeout })@ == (ConnectAction::<
            Seq<char>,
            nat,
        >::Dial { address: name@, timeout: timeout@ }),
        (ConnectAction::<String, Duration>::Configure { probes })@ == (ConnectAction::<
            Seq<char>,
            nat,
        >::Configure { probes }),
        (ConnectAction::<String, Duration>::Handshake { domain: name })@ == (ConnectAction::<
            Seq<char>,
            nat,
        >::Handshake { domain: name@ }),
        ConnectAction::<String, Duration>::Install@ is Install,
        (ConnectAction::<String, Duration>::Spawn { task })@ == (ConnectAction::<
            Seq<char>,
            nat,
        >::Spawn { task: task@ }),
        ConnectAction::<String, Duration>::Pause(timeout)@ == ConnectAction::<
            Seq<char>,
            nat,
        >::Pause(timeout@),
        ConnectEvent::<String>::Completed@ is Completed,
        ConnectEvent::<String>::Failed(name)@ == ConnectEvent::Failed(name@),
        ConnectEvent::<String>::TimedOut@ is TimedOut,
{
}

/// An event that does not answer what is due leaves a connection as it is: only dialling
/// takes too long, and putting a stream in place, running the ping task and waiting do not
/// fail.
pub proof fn connections_take_one_answer(
    machine: Connect<Seq<char>, nat>,
    session: Session,
    event: ConnectEvent<Seq<char>>,
)
    requires
        match machine.due(session) {
            ConnectAction::Dial { .. } => false,
            ConnectAction::Install | ConnectAction::Spawn { .. } | ConnectAction::Pause(_) => !(
            event is Completed),
            _ => event is TimedOut,
        },
    ensures
        machine.after(session, event) == Progress::<
            Connect<Seq<char>, nat>,
            (),
            Seq<char>,
        >::Pending(machine),
{
}

} // verus!
