//! A message and ping tasks on one connection.
//!
//! They share a stream through the in-flight lock, which one of them holds at a time.
//! From that alone it follows that no ping is ever sent or answered in the middle of an
//! exchange, and no exchange is begun in the middle of a ping.

use vstd::prelude::*;

use crate::duration::Duration;
use crate::message::{HandleMessage, MessageEvent};
use crate::ping::{PingEvent, PingStep, PingTask};
use crate::session::Session;
use crate::transport::Progress;

verus! {

/// Who holds the in-flight lock.
pub enum Holder {
    Message,
    /// The ping task with this number.
    Ping(int),
}

/// The users of a connection. A client handles one message at a time; former ping tasks
/// may still be about.
pub struct Sharing {
    pub session: Session,
    pub message: Option<HandleMessage<Seq<u8>, Seq<char>, nat>>,
    pub pings: Seq<Option<PingTask<nat>>>,
    pub lock: Option<Holder>,
}

/// What happens next.
pub enum Happening {
    /// A message is begun.
    Begin(HandleMessage<Seq<u8>, Seq<char>, nat>),
    /// The message takes in what came of what was due.
    Message(Duration, MessageEvent<Seq<u8>, Seq<char>>),
    /// A ping task is run.
    Spawn(PingTask<nat>),
    /// The ping task with this number takes in what came of what was due.
    Ping(int, Duration, PingEvent<Seq<u8>, Seq<char>>),
}

impl Sharing {
    /// What the lock and the order of things allow: the lock is granted only while nobody
    /// holds it; a message begins once the one before is over, and begins without the
    /// lock; a ping task begins asleep.
    pub open spec fn allows(self, happening: Happening) -> bool {
        match happening {
            Happening::Begin(message) => {
                &&& self.message is None
                &&& message is Connecting || message is Claiming
            },
            Happening::Message(_, event) => {
                &&& self.message is Some
                &&& event is Claimed && self.message->Some_0 is Claiming ==> self.lock is None
            },
            Happening::Spawn(task) => task is Asleep,
            Happening::Ping(number, _, event) => {
                &&& 0 <= number < self.pings.len()
                &&& self.pings[number] is Some
                &&& event == PingEvent::<Seq<u8>, Seq<char>>::Claimed(true)
                    && self.pings[number]->Some_0 is Claiming ==> self.lock is None
            },
        }
    }

    /// The lock after the message moved on: taken with the claim, and let go with the end
    /// of the message.
    pub open spec fn lock_after_message(
        self,
        event: MessageEvent<Seq<u8>, Seq<char>>,
        over: bool,
    ) -> Option<Holder> {
        let claimed = self.message->Some_0 is Claiming && event is Claimed;
        let lock = if claimed {
            Some(Holder::Message)
        } else {
            self.lock
        };
        if over && lock == Some(Holder::Message) {
            None
        } else {
            lock
        }
    }

    /// The lock after a ping task moved on: taken with the claim, and let go where the
    /// task goes to sleep or ends.
    pub open spec fn lock_after_ping(
        self,
        number: int,
        event: PingEvent<Seq<u8>, Seq<char>>,
        next: PingStep<PingTask<nat>>,
    ) -> Option<Holder> {
        let claimed = self.pings[number]->Some_0 is Claiming && event
            == PingEvent::<Seq<u8>, Seq<char>>::Claimed(true);
        let lock = if claimed {
            Some(Holder::Ping(number))
        } else {
            self.lock
        };
        let lets_go = match next {
            PingStep::Continue(task) => task is Asleep,
            PingStep::Stop { .. } => true,
        };
        if lets_go && lock == Some(Holder::Ping(number)) {
            None
        } else {
            lock
        }
    }

    /// The connection after something happened.
    pub open spec fn after(self, happening: Happening) -> Sharing {
        match happening {
            Happening::Begin(message) => Sharing { message: Some(message), ..self },
            Happening::Message(now, event) => {
                let message = self.message->Some_0;
                let session = self.session.with_ping(message.ping_after(self.session, now, event));
                match message.after(self.session, event) {
                    Progress::Pending(next) => Sharing {
                        session,
                        message: Some(next),
                        lock: self.lock_after_message(event, false),
                        ..self
                    },
                    Progress::Finished(_) => Sharing {
                        session,
                        message: None,
                        lock: self.lock_after_message(event, true),
                        ..self
                    },
                }
            },
            Happening::Spawn(task) => Sharing { pings: self.pings.push(Some(task)), ..self },
            Happening::Ping(number, now, event) => {
                let task = self.pings[number]->Some_0;
                let state = self.session.ping_state;
                let step = task.after(state, now, event);
                Sharing {
                    session: self.session.with_ping(task.state_after(state, now, event)),
                    pings: self.pings.update(
                        number,
                        match step {
                            PingStep::Continue(next) => Some(next),
                            PingStep::Stop { .. } => None,
                        },
                    ),
                    lock: self.lock_after_ping(number, event, step),
                    ..self
                }
            },
        }
    }

    /// The connection after a series of happenings; what is not allowed does not happen.
    pub open spec fn run(self, happenings: Seq<Happening>) -> Sharing
        decreases happenings.len(),
    {
        if happenings.len() == 0 {
            self
        } else {
            let before = self.run(happenings.drop_last());
            if before.allows(happenings.last()) {
                before.after(happenings.last())
            } else {
                before
            }
        }
    }

    /// A connection that nobody uses yet.
    pub open spec fn unused(self) -> bool {
        &&& self.message is None
        &&& self.pings.len() == 0
        &&& self.lock is None
    }

    /// The message has I/O due on the stream.
    pub open spec fn message_is_at_it(self) -> bool {
        self.message is Some && self.message->Some_0.due(self.session) is Io
    }

    /// The ping task with this number has I/O due on the stream.
    pub open spec fn ping_is_at_it(self, number: int) -> bool {
        &&& 0 <= number < self.pings.len()
        &&& self.pings[number] is Some
        &&& self.pings[number]->Some_0.due() is Io
    }

    spec fn message_holds(self) -> bool {
        self.message is Some && (self.message->Some_0 is Exchanging
            || self.message->Some_0 is Abandoning)
    }

    spec fn ping_holds(self, number: int) -> bool {
        &&& self.pings[number] is Some
        &&& !(self.pings[number]->Some_0 is Asleep)
        &&& !(self.pings[number]->Some_0 is Claiming)
    }

    /// The lock is held by those, and only those, that are past their claim.
    spec fn inv(self) -> bool {
        &&& self.message_holds() <==> self.lock == Some(Holder::Message)
        &&& self.lock matches Some(Holder::Ping(number)) ==> 0 <= number < self.pings.len()
        &&& forall|number: int|
            0 <= number < self.pings.len() ==> (#[trigger] self.ping_holds(number) <==> self.lock
                == Some(Holder::Ping(number)))
    }
}

proof fn happening_keeps_inv(sharing: Sharing, happening: Happening)
    requires
        sharing.inv(),
        sharing.allows(happening),
    ensures
        sharing.after(happening).inv(),
{
    let next = sharing.after(happening);
    assert forall|number: int| 0 <= number < next.pings.len() implies (
    #[trigger] next.ping_holds(number) <==> next.lock == Some(Holder::Ping(number))) by {
        if number < sharing.pings.len() {
            assert(sharing.ping_holds(number) <==> sharing.lock == Some(Holder::Ping(number)));
        }
    }
}

proof fn run_keeps_inv(sharing: Sharing, happenings: Seq<Happening>)
    requires
        sharing.inv(),
    ensures
        sharing.run(happenings).inv(),
    decreases happenings.len(),
{
    if happenings.len() > 0 {
        run_keeps_inv(sharing, happenings.drop_last());
        let before = sharing.run(happenings.drop_last());
        if before.allows(happenings.last()) {
            happening_keeps_inv(before, happenings.last());
        }
    }
}

/// Whatever happens, pings and requests never cross: while the message has I/O due no ping
/// task has, and no two ping tasks have at once.
pub proof fn pings_never_cross_requests(
    sharing: Sharing,
    happenings: Seq<Happening>,
    one: int,
    other: int,
)
    requires
        sharing.unused(),
        sharing.run(happenings).ping_is_at_it(one),
    ensures
        !sharing.run(happenings).message_is_at_it(),
        sharing.run(happenings).ping_is_at_it(other) ==> one == other,
{
    run_keeps_inv(sharing, happenings);
    let world = sharing.run(happenings);
    assert(world.ping_holds(one));
    if world.ping_is_at_it(other) {
        assert(world.ping_holds(other));
    }
}

/// Whatever happens, a well-formed session stays well-formed.
pub proof fn sharing_keeps_sessions_well_formed(sharing: Sharing, happenings: Seq<Happening>)
    requires
        sharing.session.wf(),
    ensures
        sharing.run(happenings).session.wf(),
    decreases happenings.len(),
{
    if happenings.len() > 0 {
        sharing_keeps_sessions_well_formed(sharing, happenings.drop_last());
    }
}

} // verus!
