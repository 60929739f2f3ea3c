//! Closing a connection.

use vstd::prelude::*;

use crate::duration::Duration;
use crate::error::Error;
use crate::session::Session;
use crate::transport::Progress;

verus! {

/// Closes the connection: collects the ping task, shuts the stream down and drops it.
#[derive(Debug)]
pub enum Disconnect<S = String, D = Duration> {
    /// The ping task was told to stop, and is waited for.
    Collect { patience: D },
    /// The stream is to be taken, if there is one.
    Open,
    /// The stream is to be shut down.
    Shutdown,
    /// The stream is to be dropped, whether or not shutting it down failed.
    Clear { failure: Option<S> },
}

/// What closing a connection asks for.
#[derive(Debug)]
pub enum DisconnectAction<D = Duration> {
    /// Wait for the ping task, no longer than this.
    Collect { patience: D },
    /// Take the stream and see whether there is one.
    Open,
    /// Shut the stream down.
    Shutdown,
    /// Drop the stream.
    Clear,
}

/// What came of it.
#[derive(Debug)]
pub enum DisconnectEvent<S = String> {
    /// It was done, or waited for long enough.
    Completed,
    /// Whether there is a stream.
    Opened { connected: bool },
    /// The transport failed.
    Failed(S),
}

impl View for Disconnect {
    type V = Disconnect<Seq<char>, nat>;

    open spec fn view(&self) -> Disconnect<Seq<char>, nat> {
        match self {
            Disconnect::Collect { patience } => Disconnect::Collect { patience: patience@ },
            Disconnect::Open => Disconnect::Open,
            Disconnect::Shutdown => Disconnect::Shutdown,
            Disconnect::Clear { failure } => Disconnect::Clear {
                failure: match failure {
                    Some(text) => Some(text@),
                    None => None,
                },
            },
        }
    }
}

impl View for DisconnectAction {
    type V = DisconnectAction<nat>;

    open spec fn view(&self) -> DisconnectAction<nat> {
        match self {
            DisconnectAction::Collect { patience } => DisconnectAction::Collect {
                patience: patience@,
            },
            DisconnectAction::Open => DisconnectAction::Open,
            DisconnectAction::Shutdown => DisconnectAction::Shutdown,
            DisconnectAction::Clear => DisconnectAction::Clear,
        }
    }
}

impl View for DisconnectEvent {
    type V = DisconnectEvent<Seq<char>>;

    open spec fn view(&self) -> DisconnectEvent<Seq<char>> {
        match self {
            DisconnectEvent::Completed => DisconnectEvent::Completed,
            DisconnectEvent::Opened { connected } => DisconnectEvent::Opened {
                connected: *connected,
            },
            DisconnectEvent::Failed(text) => DisconnectEvent::Failed(text@),
        }
    }
}

impl Disconnect<Seq<char>, nat> {
    /// The beginning: the ping task, where there is one, is waited for first.
    pub open spec fn opening(session: Session) -> Disconnect<Seq<char>, nat> {
        match session.patience() {
            Some(patience) => Disconnect::Collect { patience },
            None => Disconnect::Open,
        }
    }

    /// What is due.
    pub open spec fn due(self) -> DisconnectAction<nat> {
        match self {
            Disconnect::Collect { patience } => DisconnectAction::Collect { patience },
            Disconnect::Open => DisconnectAction::Open,
            Disconnect::Shutdown => DisconnectAction::Shutdown,
            Disconnect::Clear { .. } => DisconnectAction::Clear,
        }
    }

    /// Where the machine stands after `event`. An event that does not answer what is due
    /// changes nothing.
    pub open spec fn after(self, event: DisconnectEvent<Seq<char>>) -> Progress<
        Disconnect<Seq<char>, nat>,
        (),
        Seq<char>,
    > {
        match (self, event) {
            (Disconnect::Collect { .. }, DisconnectEvent::Completed) => Progress::Pending(
                Disconnect::Open,
            ),
            (Disconnect::Open, DisconnectEvent::Opened { connected }) => Progress::Pending(
                if connected {
                    Disconnect::Shutdown
                } else {
                    Disconnect::Clear { failure: None }
                },
            ),
            (Disconnect::Shutdown, DisconnectEvent::Completed) => Progress::Pending(
                Disconnect::Clear { failure: None },
            ),
            (Disconnect::Shutdown, DisconnectEvent::Failed(text)) => Progress::Pending(
                Disconnect::Clear { failure: Some(text) },
            ),
            (Disconnect::Clear { failure }, DisconnectEvent::Completed) => Progress::Finished(
                match failure {
                    Some(text) => Err(Error::Io(text)),
                    None => Ok(()),
                },
            ),
            _ => Progress::Pending(self),
        }
    }
}

impl Disconnect {
    /// Begins to close the connection, and tells the ping task to stop.
    pub fn begin(session: &mut Session) -> (machine: Disconnect)
        ensures
            machine@ == Disconnect::opening(*old(session)),
            old(session).ping_state.running ==> {
                &&& machine matches Disconnect::Collect { patience }
                &&& patience@ == 5_000_000_000
            },
            !old(session).ping_state.running ==> machine is Open,
            final(session).ping_state.should_stop,
            !final(session).ping_state.running,
            *final(session) == old(session).with_ping(old(session).ping_state.stopped()),
    {
        match session.ping_state.stop_ping_task() {
            Some(patience) => Disconnect::Collect { patience },
            None => Disconnect::Open,
        }
    }

    /// What is due.
    pub fn action(&self) -> (action: DisconnectAction)
        ensures
            action@ == self@.due(),
    {
        match self {
            Disconnect::Collect { patience } => DisconnectAction::Collect { patience: *patience },
            Disconnect::Open => DisconnectAction::Open,
            Disconnect::Shutdown => DisconnectAction::Shutdown,
            Disconnect::Clear { .. } => DisconnectAction::Clear,
        }
    }

    /// Takes in what came of what was due.
    pub fn advance(self, event: DisconnectEvent) -> (progress: Progress<Disconnect, ()>)
        ensures
            progress@ == self@.after(event@),
    {
        match (self, event) {
            (Disconnect::Collect { .. }, DisconnectEvent::Completed) => Progress::Pending(
                Disconnect::Open,
            ),
            (Disconnect::Open, DisconnectEvent::Opened { connected }) => {
                if connected {
                    Progress::Pending(Disconnect::Shutdown)
                } else {
                    Progress::Pending(Disconnect::Clear { failure: None })
                }
            },
            (Disconnect::Shutdown, DisconnectEvent::Completed) => Progress::Pending(
                Disconnect::Clear { failure: None },
            ),
            (Disconnect::Shutdown, DisconnectEvent::Failed(text)) => Progress::Pending(
                Disconnect::Clear { failure: Some(text) },
            ),
            (Disconnect::Clear { failure }, DisconnectEvent::Completed) => match failure {
                Some(text) => Progress::Finished(Err(Error::Io(text))),
                None => Progress::Finished(Ok(())),
            },
            (machine, _) => Progress::Pending(machine),
        }
    }
}

/// A connection is closed by dropping its stream, and by nothing before that. It is an
/// error only where shutting the stream down failed, and then that failure.
pub proof fn closing_ends_with_the_stream(
    machine: Disconnect<Seq<char>, nat>,
    event: DisconnectEvent<Seq<char>>,
)
    ensures
        machine.after(event) matches Progress::Finished(result) ==> {
            &&& machine.due() is Clear
            &&& event is Completed
            &&& result == match machine->failure {
                Some(text) => Err(Error::Io(text)),
                None => Ok(()),
            }
        },
        machine.after(event) matches Progress::Pending(next) ==> {
            &&& next is Clear && !(machine is Clear) ==> match next->failure {
                Some(text) => {
                    &&& machine is Shutdown
                    &&& event == DisconnectEvent::Failed(text)
                },
                None => {
                    ||| machine is Shutdown && event is Completed
                    ||| machine is Open && event == (DisconnectEvent::<Seq<char>>::Opened {
                        connected: false,
                    })
                },
            }
            &&& next is Shutdown && !(machine is Shutdown) ==> machine is Open && event == (
            DisconnectEvent::<Seq<char>>::Opened { connected: true })
        },
{
}

/// Without a stream, as after an earlier closing, nothing is shut down, and closing
/// succeeds.
pub proof fn closing_again_succeeds(session: Session)
    ensures
        ({
            let open = Disconnect::<Seq<char>, nat>::Open;
            let clear = Disconnect::<Seq<char>, nat>::Clear { failure: None };
            let opening = Disconnect::opening(
                session.with_ping(session.ping_state.stopped()),
            );
            &&& opening == open
            &&& open.after(DisconnectEvent::Opened { connected: false }) == Progress::<
                _,
                (),
                Seq<char>,
            >::Pending(clear)
            &&& clear.after(DisconnectEvent::Completed) == Progress::<
                Disconnect<Seq<char>, nat>,
                (),
                Seq<char>,
            >::Finished(Ok(()))
        }),
{
}

/// A connection from the first step of its closing to the last: a running ping task is
/// waited for up to five seconds, a stream that is there is shut down, and in any case
/// what is left is dropped. A shutdown that fails is reported after that.
pub proof fn closing_runs_through(session: Session, text: Seq<char>)
    ensures
        ({
            let done = DisconnectEvent::Completed;
            let opening = Disconnect::opening(session);
            let taking = if session.ping_state.running {
                opening.after(done)->Pending_0
            } else {
                opening
            };
            let there = taking.after(DisconnectEvent::Opened { connected: true });
            let gone = taking.after(DisconnectEvent::Opened { connected: false });
            let shut = there->Pending_0.after(done);
            let failed = there->Pending_0.after(DisconnectEvent::Failed(text));
            &&& session.ping_state.running ==> {
                &&& opening.due() == (DisconnectAction::<nat>::Collect {
                    patience: 5_000_000_000,
                })
                &&& opening.after(done) is Pending
            }
            &&& taking.due() is Open
            &&& there is Pending
            &&& there->Pending_0.due() is Shutdown
            &&& shut is Pending
            &&& shut->Pending_0.due() is Clear
            &&& shut->Pending_0.after(done) == Progress::<
                Disconnect<Seq<char>, nat>,
                (),
                Seq<char>,
            >::Finished(Ok(()))
            &&& failed is Pending
            &&& failed->Pending_0.due() is Clear
            &&& failed->Pending_0.after(done) == Progress::<
                Disconnect<Seq<char>, nat>,
                (),
                Seq<char>,
            >::Finished(Err(Error::Io(text)))
            &&& gone is Pending
            &&& gone->Pending_0.due() is Clear
            &&& gone->Pending_0.after(done) == Progress::<
                Disconnect<Seq<char>, nat>,
                (),
                Seq<char>,
            >::Finished(Ok(()))
        }),
{
}

/// An event that does not answer what is due leaves the closing as it is.
pub proof fn closing_takes_one_answer(
    machine: Disconnect<Seq<char>, nat>,
    event: DisconnectEvent<Seq<char>>,
)
    ensures
        machine.due() is Open && !(event is Opened) || !(machine.due() is Open) && event is Opened
            || !(machine.due() is Shutdown) && event is Failed ==> machine.after(event)
            == Progress::<Disconnect<Seq<char>, nat>, (), Seq<char>>::Pending(machine),
{
}

/// Contracts speak of closing a connection, of what it asks for and of what came of it part
/// by part.
pub proof fn closing_is_viewed_whole(patience: Duration, text: String, connected: bool)
    ensures
        (Disconnect::<String, Duration>::Collect { patience })@ == (Disconnect::<
            Seq<char>,
            nat,
        >::Collect { patience: patience@ }),
        Disconnect::<String, Duration>::Open@ is Open,
        Disconnect::<String, Duration>::Shutdown@ is Shutdown,
        (Disconnect::<String, Duration>::Clear { failure: Some(text) })@ == (Disconnect::<
            Seq<char>,
            nat,
        >::Clear { failure: Some(text@) }),
        (Disconnect::<String, Duration>::Clear { failure: None })@ == (Disconnect::<
            Seq<char>,
            nat,
        >::Clear { failure: None }),
        (DisconnectAction::<Duration>::Collect { patience })@ == (DisconnectAction::Collect {
            patience: patience@,
        }),
        DisconnectAction::<Duration>::Open@ is Open,
        DisconnectAction::<Duration>::Shutdown@ is Shutdown,
        DisconnectAction::<Duration>::Clear@ is Clear,
        DisconnectEvent::<String>::Completed@ is Completed,
        (DisconnectEvent::<String>::Opened { connected })@ == (DisconnectEvent::<
            Seq<char>,
        >::Opened { connected }),
        DisconnectEvent::<String>::Failed(text)@ == DisconnectEvent::Failed(text@),
{
}

} // verus!
