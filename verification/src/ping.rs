//! Keep-alive pings: the background task's state, its schedule and its dialogue.

use vstd::prelude::*;

use crate::be_bytes::{be_value, read_be};
use crate::duration::{Duration, NANOS_PER_MILLI, NANOS_PER_SEC};
use crate::error::Error;
use crate::protocol_structs::{Command, PING, STATUS_OK};
use crate::request_header::{request_header_layout, RequestHeader};
use crate::timeout_config::TimeoutConfig;
use crate::transport::{Action, Event, Progress, SIZE_WAIT_MILLIS};

verus! {

/// Configuration of the background task.
#[derive(Debug, Clone, Copy)]
pub struct PingConfig {
    /// Idle time after which a ping is sent.
    pub interval: Duration,
    /// Whether the task runs at all.
    pub enabled: bool,
}

impl Default for PingConfig {
    fn default() -> (config: PingConfig)
        ensures
            config.interval@ == 30 * NANOS_PER_SEC,
            config.interval@ == 30_000_000_000,
            config.enabled,
    {
        PingConfig { interval: Duration::from_secs(30), enabled: true }
    }
}

/// What the background task shares with the client. Points in time are given as the
/// time since a fixed origin.
#[derive(Debug, Clone, Copy)]
pub struct PingState {
    /// When something was last sent or received.
    pub last_activity: Duration,
    /// Whether there is a task that has not been collected.
    pub running: bool,
    /// Whether the task is asked to stop.
    pub should_stop: bool,
    /// Whether the status of a request without an answer is still to come on the stream.
    pub status_owed: bool,
    /// Interval, and whether pings are sent.
    pub config: PingConfig,
    /// Time limits of a ping.
    pub timeout_config: TimeoutConfig,
}

/// The time that a stopped task is waited for, in nanoseconds.
pub open spec fn stop_patience() -> nat {
    (5 * NANOS_PER_SEC) as nat
}

/// The pause between two looks at the idle time: a quarter of the interval, but
/// at least 100 milliseconds.
pub open spec fn pause_for(interval: nat) -> nat {
    if interval / 4 < 100 * NANOS_PER_MILLI {
        (100 * NANOS_PER_MILLI) as nat
    } else {
        interval / 4
    }
}

impl PingState {
    /// Pings are enabled only with an interval.
    pub open spec fn wf(self) -> bool {
        self.config.enabled ==> self.config.interval@ > 0
    }

    /// The time since the last activity.
    pub open spec fn idle(self, now: nat) -> nat {
        if now >= self.last_activity@ {
            (now - self.last_activity@) as nat
        } else {
            0
        }
    }

    /// The state once the task was started, if pings are enabled.
    pub open spec fn started(self) -> PingState {
        if self.config.enabled {
            PingState { running: true, should_stop: false, ..self }
        } else {
            self
        }
    }

    /// The state once the task was told to stop and taken to be collected.
    pub open spec fn stopped(self) -> PingState {
        PingState { running: false, should_stop: true, ..self }
    }

    /// A state without a task, active at `now`.
    pub fn new(config: PingConfig, timeout_config: TimeoutConfig, now: Duration) -> (state:
        PingState)
        ensures
            state == (PingState {
                last_activity: now,
                running: false,
                should_stop: false,
                status_owed: false,
                config,
                timeout_config,
            }),
    {
        PingState {
            last_activity: now,
            running: false,
            should_stop: false,
            status_owed: false,
            config,
            timeout_config,
        }
    }

    /// Notes an activity at `now`.
    pub fn touch_activity(&mut self, now: Duration)
        ensures
            *final(self) == (PingState { last_activity: now, ..*old(self) }),
    {
        self.last_activity = now;
    }

    /// The time since the last activity.
    pub fn elapsed_since_activity(&self, now: Duration) -> (elapsed: Duration)
        ensures
            elapsed@ == self.idle(now@),
            now@ >= self.last_activity@ ==> elapsed@ + self.last_activity@ == now@,
            now@ <= self.last_activity@ ==> elapsed@ == 0,
    {
        now.saturating_sub(self.last_activity)
    }

    /// The idle time after which a ping is sent.
    pub fn interval(&self) -> (interval: Duration)
        ensures
            interval == self.config.interval,
    {
        self.config.interval
    }

    /// Whether pings are sent.
    pub fn is_enabled(&self) -> (enabled: bool)
        ensures
            enabled == self.config.enabled,
    {
        self.config.enabled
    }

    fn first_sleep(&self) -> (task: PingTask)
        ensures
            task@ == PingTask::asleep(*self),
            task matches PingTask::Asleep { pause } && {
                &&& pause@ >= 100_000_000
                &&& pause@ >= self.config.interval@ / 4
                &&& pause@ == 100_000_000 || 4 * pause@ <= self.config.interval@
            },
    {
        let mut pause = self.config.interval.quarter();
        if pause < Duration::from_millis(100) {
            pause = Duration::from_millis(100);
        }
        PingTask::Asleep { pause }
    }

    /// Starts the task, and gives it out to be run; `None` where pings are disabled.
    pub fn start_ping_task(&mut self) -> (task: Option<PingTask>)
        ensures
            *final(self) == old(self).started(),
            task is Some <==> old(self).config.enabled,
            task matches Some(machine) ==> machine@ == PingTask::asleep(*old(self)),
            task matches Some(machine) ==> {
                &&& machine matches PingTask::Asleep { pause }
                &&& pause@ >= 100_000_000
                &&& pause@ >= old(self).config.interval@ / 4
                &&& pause@ == 100_000_000 || 4 * pause@ <= old(self).config.interval@
            },
            final(self).running == (old(self).running || old(self).config.enabled),
            final(self).should_stop == (old(self).should_stop && !old(self).config.enabled),
            final(self).last_activity == old(self).last_activity,
            final(self).status_owed == old(self).status_owed,
            final(self).config == old(self).config,
            final(self).timeout_config == old(self).timeout_config,
    {
        if !self.is_enabled() {
            return None;
        }
        self.should_stop = false;
        self.running = true;
        Some(self.first_sleep())
    }

    /// Tells the task to stop. Where there is a task, gives the time to wait for it.
    pub fn stop_ping_task(&mut self) -> (patience: Option<Duration>)
        ensures
            *final(self) == old(self).stopped(),
            patience is Some <==> old(self).running,
            patience matches Some(limit) ==> limit@ == stop_patience(),
            patience matches Some(limit) ==> limit@ == 5_000_000_000,
            !final(self).running,
            final(self).should_stop,
            final(self).last_activity == old(self).last_activity,
            final(self).status_owed == old(self).status_owed,
            final(self).config == old(self).config,
            final(self).timeout_config == old(self).timeout_config,
    {
        self.should_stop = true;
        let was_running = self.running;
        self.running = false;
        if was_running {
            Some(Duration::from_secs(5))
        } else {
            None
        }
    }
}

/// Sends a ping.
#[derive(Debug, Clone, Copy, PartialEq, Eq, Structural)]
pub enum PingRequest {
    /// The request is to be written.
    Header,
    /// The request is to be flushed.
    Flush,
}

impl View for PingRequest {
    type V = PingRequest;

    open spec fn view(&self) -> PingRequest {
        *self
    }
}

/// Begins to send a ping. Its I/O has no time limit of its own.
pub fn send_ping_request_impl() -> (machine: PingRequest)
    ensures
        machine == PingRequest::Header,
{
    PingRequest::Header
}

impl PingRequest {
    /// The I/O that is due.
    pub open spec fn due(self) -> Action<Seq<u8>, nat> {
        match self {
            PingRequest::Header => Action::Write {
                bytes: (RequestHeader { command: PING, data_size: 0 }).wire(),
                timeout: None,
            },
            PingRequest::Flush => Action::Flush,
        }
    }

    /// Where the machine stands after `event`. An event that does not answer the I/O
    /// that is due changes nothing.
    pub open spec fn after(self, event: Event<Seq<u8>, Seq<char>>) -> Progress<
        PingRequest,
        (),
        Seq<char>,
    > {
        match (self, event) {
            (_, Event::Failed(text)) => Progress::Finished(Err(Error::Io(text))),
            (PingRequest::Header, Event::Completed) => Progress::Pending(PingRequest::Flush),
            (PingRequest::Flush, Event::Completed) => Progress::Finished(Ok(())),
            _ => Progress::Pending(self),
        }
    }

    /// The I/O that is due.
    pub fn action(&self) -> (action: Action)
        ensures
            action@ == self.due(),
    {
        match self {
            PingRequest::Header => {
                let mut bytes: Vec<u8> = Vec::with_capacity(RequestHeader::encoded_len());
                let _ = RequestHeader::new(u32::from(Command::Ping), 0).encode(&mut bytes);
                assert(bytes@ =~= (RequestHeader { command: PING, data_size: 0 }).wire());
                Action::Write { bytes, timeout: None }
            },
            PingRequest::Flush => Action::Flush,
        }
    }

    /// Takes in what came of the I/O that was due.
    pub fn advance(self, event: Event) -> (progress: Progress<PingRequest, ()>)
        ensures
            progress@ == self.after(event@),
    {
        match event {
            Event::Failed(text) => Progress::Finished(Err(Error::Io(text))),
            Event::Completed => match self {
                PingRequest::Header => Progress::Pending(PingRequest::Flush),
                PingRequest::Flush => Progress::Finished(Ok(())),
            },
            _ => Progress::Pending(self),
        }
    }
}

/// How far the answer to a ping has been read.
#[derive(Debug, Clone, Copy, PartialEq, Eq, Structural)]
pub enum PingResponseStage {
    /// The status is awaited.
    Status,
    /// A size may follow. Old servers send one, others do not.
    Size,
    /// A payload follows. It is read and dropped.
    Payload { len: usize },
}

/// Reads the answer to a ping: one status byte, or a full response header. A status that
/// is still owed comes before it, and is passed over.
#[derive(Debug, Clone, Copy)]
pub struct PingResponse<D = Duration> {
    pub read_header: D,
    pub status_owed: bool,
    pub stage: PingResponseStage,
}

impl View for PingResponse {
    type V = PingResponse<nat>;

    open spec fn view(&self) -> PingResponse<nat> {
        PingResponse {
            read_header: self.read_header@,
            status_owed: self.status_owed,
            stage: self.stage,
        }
    }
}

/// Begins to read the answer to a ping.
pub fn receive_ping_response_impl(read_header_timeout: Duration) -> (machine: PingResponse)
    ensures
        machine@ == (PingResponse {
            read_header: read_header_timeout@,
            status_owed: false,
            stage: PingResponseStage::Status,
        }),
        machine.read_header == read_header_timeout,
        !machine.status_owed,
        machine.stage is Status,
{
    PingResponse {
        read_header: read_header_timeout,
        status_owed: false,
        stage: PingResponseStage::Status,
    }
}

impl PingResponse<nat> {
    /// How many bytes there are up to the status of the answer.
    pub open spec fn status_len(self) -> usize {
        if self.status_owed {
            2
        } else {
            1
        }
    }

    /// The I/O that is due.
    pub open spec fn due(self) -> Action<Seq<u8>, nat> {
        match self.stage {
            PingResponseStage::Status => Action::Read {
                len: self.status_len(),
                timeout: Some(self.read_header),
            },
            PingResponseStage::Size => Action::Read {
                len: 4,
                timeout: Some((SIZE_WAIT_MILLIS * NANOS_PER_MILLI) as nat),
            },
            PingResponseStage::Payload { len } => Action::Read { len, timeout: None },
        }
    }

    pub open spec fn at(self, stage: PingResponseStage) -> PingResponse<nat> {
        PingResponse { stage, ..self }
    }

    /// Where the machine stands after `event`. An event that does not answer the I/O
    /// that is due changes nothing.
    pub open spec fn after(self, event: Event<Seq<u8>, Seq<char>>) -> Progress<
        PingResponse<nat>,
        (),
        Seq<char>,
    > {
        match (self.stage, event) {
            (_, Event::Failed(text)) => Progress::Finished(Err(Error::Io(text))),
            (PingResponseStage::Status, Event::TimedOut) => Progress::Finished(
                Err(Error::Timeout("Ping response header timeout"@)),
            ),
            (PingResponseStage::Status, Event::Received(bytes)) if bytes.len()
                >= self.status_len() => {
                let status = bytes[self.status_len() - 1];
                if status == STATUS_OK {
                    Progress::Pending(self.at(PingResponseStage::Size))
                } else {
                    Progress::Finished(Err(Error::ResponseError { status }))
                }
            },
            // No size follows: a one-byte answer.
            (PingResponseStage::Size, Event::TimedOut) => Progress::Finished(Ok(())),
            (PingResponseStage::Size, Event::Received(bytes)) if bytes.len() >= 4 => {
                let len = be_value(bytes.subrange(0, 4)) as usize;
                if len > 0 {
                    Progress::Pending(self.at(PingResponseStage::Payload { len }))
                } else {
                    Progress::Finished(Ok(()))
                }
            },
            (PingResponseStage::Payload { .. }, Event::Received(_)) => Progress::Finished(Ok(())),
            _ => Progress::Pending(self),
        }
    }
}

impl PingResponse {
    /// The I/O that is due.
    pub fn action(&self) -> (action: Action)
        ensures
            action@ == self@.due(),
    {
        match self.stage {
            PingResponseStage::Status => Action::Read {
                len: self.bytes_to_status(),
                timeout: Some(self.read_header),
            },
            PingResponseStage::Size => Action::Read {
                len: 4,
                timeout: Some(Duration::from_millis(SIZE_WAIT_MILLIS)),
            },
            PingResponseStage::Payload { len } => Action::Read { len, timeout: None },
        }
    }

    fn bytes_to_status(&self) -> (len: usize)
        ensures
            len == self@.status_len(),
    {
        if self.status_owed {
            2
        } else {
            1
        }
    }

    fn received(self, bytes: Vec<u8>) -> (progress: Progress<PingResponse, ()>)
        ensures
            progress@ == self@.after(Event::Received(bytes@)),
    {
        match self.stage {
            PingResponseStage::Status => {
                let len: usize = self.bytes_to_status();
                if bytes.len() < len {
                    return Progress::Pending(self);
                }
                let status: u8 = bytes[len - 1];
                if status != STATUS_OK {
                    return Progress::Finished(Err(Error::ResponseError { status }));
                }
                Progress::Pending(PingResponse { stage: PingResponseStage::Size, ..self })
            },
            PingResponseStage::Size => {
                if bytes.len() < 4 {
                    return Progress::Pending(self);
                }
                let len: usize = read_be(bytes.as_slice(), 0) as usize;
                if len > 0 {
                    Progress::Pending(
                        PingResponse { stage: PingResponseStage::Payload { len }, ..self },
                    )
                } else {
                    Progress::Finished(Ok(()))
                }
            },
            PingResponseStage::Payload { .. } => Progress::Finished(Ok(())),
        }
    }

    /// Takes in what came of the I/O that was due.
    pub fn advance(self, event: Event) -> (progress: Progress<PingResponse, ()>)
        ensures
            progress@ == self@.after(event@),
    {
        match event {
            Event::Failed(text) => Progress::Finished(Err(Error::Io(text))),
            Event::Received(bytes) => self.received(bytes),
            Event::TimedOut => match self.stage {
                PingResponseStage::Status => Progress::Finished(
                    Err(Error::Timeout("Ping response header timeout".to_owned())),
                ),
                PingResponseStage::Size => Progress::Finished(Ok(())),
                PingResponseStage::Payload { .. } => Progress::Pending(self),
            },
            Event::Completed => Progress::Pending(self),
        }
    }
}

/// The background task.
#[derive(Debug, Clone, Copy)]
pub enum PingTask<D = Duration> {
    /// It sleeps, and holds nothing.
    Asleep { pause: D },
    /// The connection has been idle for long enough. The in-flight lock is to be tried.
    Claiming,
    /// No request is in flight. The stream is to be looked at.
    Opening,
    /// A ping is being sent.
    Sending(PingRequest),
    /// Its answer is being read.
    Receiving(PingResponse<D>),
}

/// What the background task asks for.
#[derive(Debug)]
pub enum PingAction<B = Vec<u8>, D = Duration> {
    /// Let go of the locks and sleep.
    Sleep(D),
    /// Try to take the in-flight lock, without waiting.
    Claim,
    /// Lock the stream and see whether there is one.
    Open,
    /// Perform I/O on the stream.
    Io(Action<B, D>),
}

/// What came of it.
#[derive(Debug)]
pub enum PingEvent<B = Vec<u8>, S = String> {
    /// The task woke up.
    Woke,
    /// Whether the in-flight lock was free.
    Claimed(bool),
    /// Whether there is a stream.
    Opened(bool),
    /// What came of the I/O.
    Io(Event<B, S>),
}

/// Where the background task stands once it was advanced.
#[derive(Debug)]
pub enum PingStep<M> {
    /// It goes on.
    Continue(M),
    /// It ends, and takes the stream with it where `drop_stream` says so.
    Stop { drop_stream: bool },
}

impl View for PingTask {
    type V = PingTask<nat>;

    open spec fn view(&self) -> PingTask<nat> {
        match self {
            PingTask::Asleep { pause } => PingTask::Asleep { pause: pause@ },
            PingTask::Claiming => PingTask::Claiming,
            PingTask::Opening => PingTask::Opening,
            PingTask::Sending(request) => PingTask::Sending(*request),
            PingTask::Receiving(response) => PingTask::Receiving(response@),
        }
    }
}

impl View for PingAction {
    type V = PingAction<Seq<u8>, nat>;

    open spec fn view(&self) -> PingAction<Seq<u8>, nat> {
        match self {
            PingAction::Sleep(pause) => PingAction::Sleep(pause@),
            PingAction::Claim => PingAction::Claim,
            PingAction::Open => PingAction::Open,
            PingAction::Io(action) => PingAction::Io(action@),
        }
    }
}

impl View for PingEvent {
    type V = PingEvent<Seq<u8>, Seq<char>>;

    open spec fn view(&self) -> PingEvent<Seq<u8>, Seq<char>> {
        match self {
            PingEvent::Woke => PingEvent::Woke,
            PingEvent::Claimed(free) => PingEvent::Claimed(*free),
            PingEvent::Opened(present) => PingEvent::Opened(*present),
            PingEvent::Io(event) => PingEvent::Io(event@),
        }
    }
}

impl<M: View> View for PingStep<M> {
    type V = PingStep<M::V>;

    open spec fn view(&self) -> PingStep<M::V> {
        match self {
            PingStep::Continue(machine) => PingStep::Continue(machine@),
            PingStep::Stop { drop_stream } => PingStep::Stop { drop_stream: *drop_stream },
        }
    }
}

impl PingTask<nat> {
    /// The task as it goes to sleep.
    pub open spec fn asleep(state: PingState) -> PingTask<nat> {
        PingTask::Asleep { pause: pause_for(state.config.interval@) }
    }

    /// What is due.
    pub open spec fn due(self) -> PingAction<Seq<u8>, nat> {
        match self {
            PingTask::Asleep { pause } => PingAction::Sleep(pause),
            PingTask::Claiming => PingAction::Claim,
            PingTask::Opening => PingAction::Open,
            PingTask::Sending(request) => PingAction::Io(request.due()),
            PingTask::Receiving(response) => PingAction::Io(response.due()),
        }
    }

    /// Where the task stands after `event`. An event that does not answer what is due
    /// changes nothing.
    pub open spec fn after(
        self,
        state: PingState,
        now: Duration,
        event: PingEvent<Seq<u8>, Seq<char>>,
    ) -> PingStep<PingTask<nat>> {
        match (self, event) {
            (PingTask::Asleep { .. }, PingEvent::Woke) => if state.should_stop {
                PingStep::Stop { drop_stream: false }
            } else if state.idle(now@) < state.config.interval@ {
                PingStep::Continue(PingTask::asleep(state))
            } else {
                PingStep::Continue(PingTask::Claiming)
            },
            (PingTask::Claiming, PingEvent::Claimed(free)) => PingStep::Continue(
                if free {
                    PingTask::Opening
                } else {
                    PingTask::asleep(state)
                },
            ),
            (PingTask::Opening, PingEvent::Opened(present)) => if present {
                PingStep::Continue(PingTask::Sending(PingRequest::Header))
            } else {
                PingStep::Stop { drop_stream: false }
            },
            (PingTask::Sending(request), PingEvent::Io(io)) => match request.after(io) {
                Progress::Pending(request) => PingStep::Continue(PingTask::Sending(request)),
                Progress::Finished(Ok(_)) => PingStep::Continue(
                    PingTask::Receiving(
                        PingResponse {
                            read_header: state.timeout_config.read_header@,
                            status_owed: state.status_owed,
                            stage: PingResponseStage::Status,
                        },
                    ),
                ),
                Progress::Finished(Err(_)) => PingStep::Stop { drop_stream: true },
            },
            (PingTask::Receiving(response), PingEvent::Io(io)) => match response.after(io) {
                Progress::Pending(response) => PingStep::Continue(PingTask::Receiving(response)),
                Progress::Finished(Ok(_)) => PingStep::Continue(PingTask::asleep(state)),
                Progress::Finished(Err(_)) => PingStep::Stop { drop_stream: true },
            },
            _ => PingStep::Continue(self),
        }
    }

    /// The shared state after `event`: a task that ends leaves its stop flag set, and
    /// an answered ping counts as activity and leaves no status owed.
    pub open spec fn state_after(
        self,
        state: PingState,
        now: Duration,
        event: PingEvent<Seq<u8>, Seq<char>>,
    ) -> PingState {
        if self.after(state, now, event) is Stop {
            PingState { should_stop: true, ..state }
        } else if self is Receiving && self.after(state, now, event)->Continue_0 is Asleep {
            PingState { last_activity: now, status_owed: false, ..state }
        } else {
            state
        }
    }
}

impl PingTask {
    /// What is due.
    pub fn action(&self) -> (action: PingAction)
        ensures
            action@ == self@.due(),
    {
        match self {
            PingTask::Asleep { pause } => PingAction::Sleep(*pause),
            PingTask::Claiming => PingAction::Claim,
            PingTask::Opening => PingAction::Open,
            PingTask::Sending(request) => PingAction::Io(request.action()),
            PingTask::Receiving(response) => PingAction::Io(response.action()),
        }
    }

    fn sent(state: &mut PingState, progress: Progress<PingRequest, ()>) -> (step: PingStep<
        PingTask,
    >)
        ensures
            match progress@ {
                Progress::Pending(request) => {
                    &&& step@ == PingStep::Continue(PingTask::<nat>::Sending(request))
                    &&& *final(state) == *old(state)
                },
                Progress::Finished(Ok(_)) => {
                    &&& step@ == PingStep::Continue(
                        PingTask::Receiving(
                            PingResponse {
                                read_header: old(state).timeout_config.read_header@,
                                status_owed: old(state).status_owed,
                                stage: PingResponseStage::Status,
                            },
                        ),
                    )
                    &&& *final(state) == *old(state)
                },
                Progress::Finished(Err(_)) => {
                    &&& step@ == PingStep::<PingTask<nat>>::Stop { drop_stream: true }
                    &&& *final(state) == (PingState { should_stop: true, ..*old(state) })
                },
            },
    {
        match progress {
            Progress::Pending(request) => PingStep::Continue(PingTask::Sending(request)),
            Progress::Finished(Ok(_)) => {
                let response = receive_ping_response_impl(state.timeout_config.read_header);
                let status_owed = state.status_owed;
                PingStep::Continue(PingTask::Receiving(PingResponse { status_owed, ..response }))
            },
            Progress::Finished(Err(_)) => {
                state.should_stop = true;
                PingStep::Stop { drop_stream: true }
            },
        }
    }

    fn answered(
        state: &mut PingState,
        now: Duration,
        progress: Progress<PingResponse, ()>,
    ) -> (step: PingStep<PingTask>)
        ensures
            match progress@ {
                Progress::Pending(response) => {
                    &&& step@ == PingStep::Continue(PingTask::Receiving(response))
                    &&& *final(state) == *old(state)
                },
                Progress::Finished(Ok(_)) => {
                    &&& step@ == PingStep::Continue(PingTask::asleep(*old(state)))
                    &&& *final(state) == (PingState {
                        last_activity: now,
                        status_owed: false,
                        ..*old(state)
                    })
                },
                Progress::Finished(Err(_)) => {
                    &&& step@ == PingStep::<PingTask<nat>>::Stop { drop_stream: true }
                    &&& *final(state) == (PingState { should_stop: true, ..*old(state) })
                },
            },
    {
        match progress {
            Progress::Pending(response) => PingStep::Continue(PingTask::Receiving(response)),
            Progress::Finished(Ok(_)) => {
                state.touch_activity(now);
                state.status_owed = false;
                PingStep::Continue(state.first_sleep())
            },
            Progress::Finished(Err(_)) => {
                state.should_stop = true;
                PingStep::Stop { drop_stream: true }
            },
        }
    }

    /// Takes in what came of what was due, at the time `now`.
    pub fn advance(self, state: &mut PingState, now: Duration, event: PingEvent) -> (step: PingStep<
        PingTask,
    >)
        ensures
            step@ == self@.after(*old(state), now, event@),
            *final(state) == self@.state_after(*old(state), now, event@),
    {
        match (self, event) {
            (PingTask::Asleep { .. }, PingEvent::Woke) => {
                if state.should_stop {
                    PingStep::Stop { drop_stream: false }
                } else if state.elapsed_since_activity(now) < state.interval() {
                    PingStep::Continue(state.first_sleep())
                } else {
                    PingStep::Continue(PingTask::Claiming)
                }
            },
            (PingTask::Claiming, PingEvent::Claimed(free)) => {
                if free {
                    PingStep::Continue(PingTask::Opening)
                } else {
                    PingStep::Continue(state.first_sleep())
                }
            },
            (PingTask::Opening, PingEvent::Opened(present)) => {
                if present {
                    PingStep::Continue(PingTask::Sending(send_ping_request_impl()))
                } else {
                    state.should_stop = true;
                    PingStep::Stop { drop_stream: false }
                }
            },
            (PingTask::Sending(request), PingEvent::Io(io)) => PingTask::sent(
                state,
                request.advance(io),
            ),
            (PingTask::Receiving(response), PingEvent::Io(io)) => PingTask::answered(
                state,
                now,
                response.advance(io),
            ),
            (task, _) => PingStep::Continue(task),
        }
    }
}

/// The task sends a ping only where it holds the in-flight lock and there is a stream, and
/// asks for the lock only where it woke up, was not told to stop, and nothing was sent or
/// received for at least the interval.
pub proof fn pings_need_idleness(
    task: PingTask<nat>,
    state: PingState,
    now: Duration,
    event: PingEvent<Seq<u8>, Seq<char>>,
)
    ensures
        task.after(state, now, event) matches PingStep::Continue(next) ==> {
            &&& next is Sending && !(task is Sending) ==> task is Opening && event
                == PingEvent::<Seq<u8>, Seq<char>>::Opened(true)
            &&& next is Opening && !(task is Opening) ==> task is Claiming && event
                == PingEvent::<Seq<u8>, Seq<char>>::Claimed(true)
            &&& next is Claiming && !(task is Claiming) ==> {
                &&& task is Asleep
                &&& event is Woke
                &&& !state.should_stop
                &&& state.idle(now@) >= state.config.interval@
            }
        },
{
}

/// A task that falls asleep before the interval is over and wakes in time asks for the
/// in-flight lock as soon as it finds the interval over, and by then no more than one
/// pause has gone by since.
pub proof fn pings_come_in_time(
    task: PingTask<nat>,
    state: PingState,
    asleep_at: Duration,
    now: Duration,
)
    requires
        task == PingTask::asleep(state),
        !state.should_stop,
        state.last_activity@ <= asleep_at@,
        state.idle(asleep_at@) < state.config.interval@,
        asleep_at@ <= now@ <= asleep_at@ + pause_for(state.config.interval@),
    ensures
        state.idle(now@) < state.config.interval@ + pause_for(state.config.interval@),
        task.after(state, now, PingEvent::Woke) == PingStep::Continue(
            if state.idle(now@) >= state.config.interval@ {
                PingTask::Claiming
            } else {
                task
            },
        ),
{
}

/// A task that was told to stop ends when it wakes, without a ping. A task that ends has
/// its stop flag set, and drops the stream exactly where its ping failed.
pub proof fn tasks_end(
    task: PingTask<nat>,
    state: PingState,
    now: Duration,
    event: PingEvent<Seq<u8>, Seq<char>>,
)
    ensures
        task is Asleep && event is Woke && state.should_stop ==> task.after(state, now, event)
            == (PingStep::<PingTask<nat>>::Stop { drop_stream: false }),
        task.after(state, now, event) is Stop ==> {
            &&& task.state_after(state, now, event).should_stop
            &&& task.after(state, now, event)->drop_stream == (task is Sending
                || task is Receiving)
        },
{
}

/// The task never touches the settings, nor whether it is to be collected.
pub proof fn tasks_keep_settings(
    task: PingTask<nat>,
    state: PingState,
    now: Duration,
    event: PingEvent<Seq<u8>, Seq<char>>,
)
    ensures
        task.state_after(state, now, event).config == state.config,
        task.state_after(state, now, event).timeout_config == state.timeout_config,
        task.state_after(state, now, event).running == state.running,
        state.wf() ==> task.state_after(state, now, event).wf(),
{
}

/// A task that goes to sleep, when it starts or later and for whatever reason, sleeps for a
/// quarter of the interval, or for 100 milliseconds where that is longer.
pub proof fn pauses_are_short(
    task: PingTask<nat>,
    state: PingState,
    now: Duration,
    event: PingEvent<Seq<u8>, Seq<char>>,
)
    ensures
        ({
            let interval = state.config.interval@;
            &&& PingTask::asleep(state).due() matches PingAction::Sleep(pause)
            &&& 100_000_000 <= pause
            &&& interval / 4 <= pause
            &&& pause == 100_000_000 || 4 * pause <= interval
        }),
        ({
            let interval = state.config.interval@;
            !(task is Asleep) || event is Woke ==> {
                task.after(state, now, event) matches PingStep::Continue(next) ==> {
                    next.due() matches PingAction::Sleep(pause) ==> {
                        &&& 100_000_000 <= pause
                        &&& interval / 4 <= pause
                        &&& pause == 100_000_000 || 4 * pause <= interval
                    }
                }
            }
        }),
{
}

/// A task that falls asleep before the interval is over, and wakes when it asked to, finds
/// a connection idle for less than the interval and a quarter of it, or than the interval
/// and 100 milliseconds where that is longer. Once the interval is over it asks for the
/// in-flight lock.
pub proof fn idle_connections_are_noticed(
    state: PingState,
    asleep_at: Duration,
    pause: nat,
    now: Duration,
)
    requires
        PingTask::asleep(state).due() == PingAction::<Seq<u8>, nat>::Sleep(pause),
        !state.should_stop,
        state.last_activity@ <= asleep_at@ < state.last_activity@ + state.config.interval@,
        asleep_at@ <= now@ <= asleep_at@ + pause,
    ensures
        ({
            let interval = state.config.interval@;
            let idle = now@ - state.last_activity@;
            let woken = PingTask::asleep(state).after(state, now, PingEvent::Woke);
            &&& interval < 400_000_000 ==> idle < interval + 100_000_000
            &&& interval >= 400_000_000 ==> 4 * idle < 5 * interval
            &&& woken is Continue
            &&& idle >= interval ==> woken->Continue_0.due() is Claim
            &&& idle < interval ==> woken->Continue_0.due() == PingAction::<
                Seq<u8>,
                nat,
            >::Sleep(pause)
        }),
{
}

/// A ping is eight zero bytes, written and flushed without a limit.
pub proof fn pings_are_eight_zeros(text: Seq<char>)
    ensures
        ({
            let flushing = PingRequest::Header.after(Event::Completed);
            &&& PingRequest::Header.due() == (Action::<Seq<u8>, nat>::Write {
                bytes: seq![0, 0, 0, 0, 0, 0, 0, 0],
                timeout: None,
            })
            &&& flushing is Pending
            &&& flushing->Pending_0.due() is Flush
            &&& flushing->Pending_0.after(Event::Completed) == Progress::<
                PingRequest,
                (),
                Seq<char>,
            >::Finished(Ok(()))
            &&& forall|request: PingRequest|
                #[trigger] request.after(Event::Failed(text)) == Progress::<
                    PingRequest,
                    (),
                    Seq<char>,
                >::Finished(Err(Error::Io(text)))
        }),
{
    let header = RequestHeader { command: PING, data_size: 0 };
    request_header_layout(header);
    crate::be_bytes::byte_powers();
    assert(header.wire() =~= seq![0, 0, 0, 0, 0, 0, 0, 0]);
}

/// The answer to a ping: a status within the limit for headers, after the one that is owed
/// where one is. A one may be followed by a size within ten milliseconds, and that by a
/// payload. Any other status is an error.
pub proof fn pings_are_answered(
    read_header: nat,
    status_owed: bool,
    bytes: Seq<u8>,
    size: Seq<u8>,
    payload: Seq<u8>,
)
    requires
        bytes.len() == if status_owed {
            2nat
        } else {
            1nat
        },
        size.len() == 4,
    ensures
        ({
            let machine = PingResponse {
                read_header,
                status_owed,
                stage: PingResponseStage::Status,
            };
            let status = bytes[bytes.len() - 1];
            let judged = machine.after(Event::Received(bytes));
            let sizing = judged->Pending_0;
            let sized = sizing.after(Event::Received(size));
            let announced = size[0] * 16_777_216 + size[1] * 65_536 + size[2] * 256 + size[3];
            &&& machine.due() matches Action::Read { len, timeout }
            &&& len == bytes.len()
            &&& timeout == Some(read_header)
            &&& machine.after(Event::TimedOut) == Progress::<
                PingResponse<nat>,
                (),
                Seq<char>,
            >::Finished(Err(Error::Timeout("Ping response header timeout"@)))
            &&& status != 1 ==> judged == Progress::<PingResponse<nat>, (), Seq<char>>::Finished(
                Err(Error::ResponseError { status }),
            )
            &&& status == 1 ==> {
                &&& judged is Pending
                &&& sizing.due() == (Action::<Seq<u8>, nat>::Read {
                    len: 4,
                    timeout: Some(10_000_000),
                })
                &&& sizing.after(Event::TimedOut) == Progress::<
                    PingResponse<nat>,
                    (),
                    Seq<char>,
                >::Finished(Ok(()))
                &&& announced == 0 ==> sized == Progress::<
                    PingResponse<nat>,
                    (),
                    Seq<char>,
                >::Finished(Ok(()))
                &&& announced > 0 ==> {
                    &&& sized is Pending
                    &&& sized->Pending_0.due() matches Action::Read { len: rest, timeout: limit }
                    &&& rest == announced
                    &&& limit is None
                    &&& sized->Pending_0.after(Event::Received(payload)) == Progress::<
                        PingResponse<nat>,
                        (),
                        Seq<char>,
                    >::Finished(Ok(()))
                }
            }
        }),
{
    assert(size.subrange(0, 4) =~= size);
    crate::be_bytes::byte_powers();
    crate::be_bytes::bytes_are_weighed(size);
}

/// Every failure of the transport ends a ping with an I/O error.
pub proof fn ping_answers_report_failures(response: PingResponse<nat>, text: Seq<char>)
    ensures
        response.after(Event::Failed(text)) == Progress::<
            PingResponse<nat>,
            (),
            Seq<char>,
        >::Finished(Err(Error::Io(text))),
        response.after(Event::Completed) == Progress::<
            PingResponse<nat>,
            (),
            Seq<char>,
        >::Pending(response),
{
}

/// A task that finds the interval over takes the lock without waiting, looks for a stream,
/// and sends its ping there. It goes back to sleep where the lock is taken, and ends where
/// there is no stream.
pub proof fn tasks_lead_up_to_a_ping(task: PingTask<nat>, state: PingState, now: Duration)
    requires
        task is Asleep,
    ensures
        ({
            let interval = state.config.interval@;
            let over = interval == 0 || now@ >= state.last_activity@ + interval;
            let woken = task.after(state, now, PingEvent::Woke);
            let claiming = woken->Continue_0;
            let opening = claiming.after(state, now, PingEvent::Claimed(true))->Continue_0;
            let busy = claiming.after(state, now, PingEvent::Claimed(false));
            let sending = opening.after(state, now, PingEvent::Opened(true))->Continue_0;
            &&& state.should_stop ==> woken == (PingStep::<PingTask<nat>>::Stop {
                drop_stream: false,
            })
            &&& !state.should_stop ==> woken is Continue
            &&& !state.should_stop && !over ==> claiming.due() is Sleep
            &&& !state.should_stop && over ==> {
                &&& claiming.due() is Claim
                &&& claiming.after(state, now, PingEvent::Claimed(true)) is Continue
                &&& opening.due() is Open
                &&& busy is Continue
                &&& busy->Continue_0.due() is Sleep
                &&& opening.after(state, now, PingEvent::Opened(true)) is Continue
                &&& sending.due() == PingAction::<Seq<u8>, nat>::Io(
                    Action::Write { bytes: seq![0, 0, 0, 0, 0, 0, 0, 0], timeout: None },
                )
                &&& opening.after(state, now, PingEvent::Opened(false)) == (PingStep::<
                    PingTask<nat>,
                >::Stop { drop_stream: false })
            }
        }),
{
    pings_are_eight_zeros(seq![]);
}

/// A task that sends a ping and reads its answer does what they ask for, with the time
/// limit and the owed status that it finds when the ping is out. It sleeps after an
/// answer, and ends where either fails, with the stream.
pub proof fn tasks_follow_their_pings(
    request: PingRequest,
    response: PingResponse<nat>,
    state: PingState,
    now: Duration,
    io: Event<Seq<u8>, Seq<char>>,
)
    ensures
        ({
            let task = PingTask::<nat>::Sending(request);
            let next = task.after(state, now, PingEvent::Io(io));
            &&& task.due() == PingAction::<Seq<u8>, nat>::Io(request.due())
            &&& match request.after(io) {
                Progress::Pending(later) => next == PingStep::Continue(
                    PingTask::<nat>::Sending(later),
                ),
                Progress::Finished(Ok(_)) => {
                    &&& next is Continue
                    &&& next->Continue_0.due() == PingAction::<Seq<u8>, nat>::Io(
                        Action::Read {
                            len: if state.status_owed {
                                2
                            } else {
                                1
                            },
                            timeout: Some(state.timeout_config.read_header@),
                        },
                    )
                },
                Progress::Finished(Err(_)) => next == (PingStep::<PingTask<nat>>::Stop {
                    drop_stream: true,
                }),
            }
        }),
        ({
            let task = PingTask::<nat>::Receiving(response);
            let next = task.after(state, now, PingEvent::Io(io));
            &&& task.due() == PingAction::<Seq<u8>, nat>::Io(response.due())
            &&& match response.after(io) {
                Progress::Pending(later) => next == PingStep::Continue(
                    PingTask::<nat>::Receiving(later),
                ),
                Progress::Finished(Ok(_)) => {
                    &&& next is Continue
                    &&& next->Continue_0.due() is Sleep
                },
                Progress::Finished(Err(_)) => next == (PingStep::<PingTask<nat>>::Stop {
                    drop_stream: true,
                }),
            }
        }),
{
}

/// What a step of the task leaves of the shared state: an answered ping counts as activity
/// of that moment and leaves nothing owed, a task that ends sets the stop flag, and nothing
/// else is changed.
pub proof fn tasks_leave_their_marks(
    task: PingTask<nat>,
    state: PingState,
    now: Duration,
    event: PingEvent<Seq<u8>, Seq<char>>,
)
    ensures
        ({
            let next = task.after(state, now, event);
            let after = task.state_after(state, now, event);
            let answered = {
                &&& task matches PingTask::Receiving(response)
                &&& event matches PingEvent::Io(io)
                &&& response.after(io) matches Progress::Finished(Ok(_))
            };
            &&& after.should_stop == (state.should_stop || next is Stop)
            &&& after.last_activity == if answered {
                now
            } else {
                state.last_activity
            }
            &&& after.status_owed == (state.status_owed && !answered)
            &&& after.running == state.running
            &&& after.config == state.config
            &&& after.timeout_config == state.timeout_config
        }),
{
}

/// The time since the last activity is what has gone by since; the clock standing before
/// it counts as none. A started task runs and is not to stop, where pings are enabled; a
/// stopped one is, and does not run.
pub proof fn ping_states_change(state: PingState, now: nat)
    ensures
        now >= state.last_activity@ ==> state.idle(now) + state.last_activity@ == now,
        now <= state.last_activity@ ==> state.idle(now) == 0,
        ({
            let started = state.started();
            let stopped = state.stopped();
            &&& started.running == (state.running || state.config.enabled)
            &&& started.should_stop == (state.should_stop && !state.config.enabled)
            &&& !stopped.running
            &&& stopped.should_stop
            &&& started.last_activity == state.last_activity
            &&& stopped.last_activity == state.last_activity
            &&& started.status_owed == state.status_owed
            &&& stopped.status_owed == state.status_owed
            &&& started.config == state.config
            &&& stopped.config == state.config
            &&& started.timeout_config == state.timeout_config
            &&& stopped.timeout_config == state.timeout_config
        }),
        stop_patience() == 5_000_000_000,
{
}

/// Contracts speak of pings, of what they ask for and of what came of it part by part.
pub proof fn pings_are_viewed_whole(
    request: PingRequest,
    response: PingResponse,
    pause: Duration,
    io: Action,
    event: Event,
    yes: bool,
    task: PingTask,
)
    ensures
        request@ == request,
        response@.read_header == response.read_header@,
        response@.status_owed == response.status_owed,
        response@.stage == response.stage,
        (PingTask::<Duration>::Asleep { pause })@ == (PingTask::Asleep { pause: pause@ }),
        PingTask::<Duration>::Claiming@ is Claiming,
        PingTask::<Duration>::Opening@ is Opening,
        PingTask::<Duration>::Sending(request)@ == PingTask::<nat>::Sending(request),
        PingTask::<Duration>::Receiving(response)@ == PingTask::<nat>::Receiving(response@),
        PingAction::<Vec<u8>, Duration>::Sleep(pause)@ == PingAction::<Seq<u8>, nat>::Sleep(pause@),
        PingAction::<Vec<u8>, Duration>::Claim@ is Claim,
        PingAction::<Vec<u8>, Duration>::Open@ is Open,
        PingAction::<Vec<u8>, Duration>::Io(io)@ == PingAction::<Seq<u8>, nat>::Io(io@),
        PingEvent::<Vec<u8>, String>::Woke@ is Woke,
        PingEvent::<Vec<u8>, String>::Claimed(yes)@ == PingEvent::<Seq<u8>, Seq<char>>::Claimed(
            yes,
        ),
        PingEvent::<Vec<u8>, String>::Opened(yes)@ == PingEvent::<Seq<u8>, Seq<char>>::Opened(yes),
        PingEvent::<Vec<u8>, String>::Io(event)@ == PingEvent::<Seq<u8>, Seq<char>>::Io(event@),
        PingStep::<PingTask>::Continue(task)@ == PingStep::Continue(task@),
        (PingStep::<PingTask>::Stop { drop_stream: yes })@ == (PingStep::<PingTask<nat>>::Stop {
            drop_stream: yes,
        }),
{
}

/// A claim is followed up whatever became of the state meanwhile: with the lock the stream
/// is looked at, without it the task sleeps. A stream that is there gets a ping, and where
/// there is none the task ends.
pub proof fn claims_are_followed_up(state: PingState, now: Duration)
    ensures
        ({
            let claiming = PingTask::<nat>::Claiming;
            let free = claiming.after(state, now, PingEvent::Claimed(true));
            let busy = claiming.after(state, now, PingEvent::Claimed(false));
            let opening = PingTask::<nat>::Opening;
            let there = opening.after(state, now, PingEvent::Opened(true));
            let gone = opening.after(state, now, PingEvent::Opened(false));
            &&& claiming.due() is Claim
            &&& free is Continue
            &&& free->Continue_0.due() is Open
            &&& busy is Continue
            &&& busy->Continue_0.due() is Sleep
            &&& opening.due() is Open
            &&& there is Continue
            &&& there->Continue_0.due() == PingAction::<Seq<u8>, nat>::Io(
                Action::Write { bytes: seq![0, 0, 0, 0, 0, 0, 0, 0], timeout: None },
            )
            &&& gone == (PingStep::<PingTask<nat>>::Stop { drop_stream: false })
        }),
{
    pings_are_eight_zeros(seq![]);
}

/// An event that does not answer what is due leaves a task as it is.
pub proof fn tasks_take_one_answer(
    task: PingTask<nat>,
    state: PingState,
    now: Duration,
    event: PingEvent<Seq<u8>, Seq<char>>,
)
    requires
        match task.due() {
            PingAction::Sleep(_) => !(event is Woke),
            PingAction::Claim => !(event is Claimed),
            PingAction::Open => !(event is Opened),
            PingAction::Io(_) => !(event is Io),
        },
    ensures
        task.after(state, now, event) == PingStep::Continue(task),
        task.state_after(state, now, event) == state,
{
}

/// Writing a ping and flushing it has no limit that could run out, and gives no bytes. An
/// answer is read as a whole: fewer bytes than were asked for change nothing, and the
/// payload of an answer has no limit.
pub proof fn pings_take_one_answer(
    request: PingRequest,
    response: PingResponse<nat>,
    bytes: Seq<u8>,
)
    ensures
        request.after(Event::TimedOut) == Progress::<PingRequest, (), Seq<char>>::Pending(request),
        request.after(Event::Received(bytes)) == Progress::<PingRequest, (), Seq<char>>::Pending(
            request,
        ),
        response.due() matches Action::Read { len, timeout } ==> {
            &&& !(response.stage is Payload) && bytes.len() < len ==> response.after(
                Event::Received(bytes),
            ) == Progress::<PingResponse<nat>, (), Seq<char>>::Pending(response)
            &&& timeout is None ==> response.after(Event::TimedOut) == Progress::<
                PingResponse<nat>,
                (),
                Seq<char>,
            >::Pending(response)
        },
        response.after(Event::Received(bytes)) matches Progress::Pending(next) ==> {
            &&& next.read_header == response.read_header
            &&& next.status_owed == response.status_owed
        },
{
}

} // verus!
