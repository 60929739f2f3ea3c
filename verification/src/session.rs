//! The settings of a client and the state that its operations share.

use vstd::prelude::*;

use crate::duration::Duration;
use crate::error::{outcome, Result};
use crate::ping::{stop_patience, PingConfig, PingState};
use crate::timeout_config::{clamped_interval, TimeoutConfig};
use crate::transport::{buffer_limit, choose_buffer_limit, span, DEFAULT_MAX_BUFFER_SIZE};

verus! {

/// Settings and keep-alive state of a client, whatever it runs on.
#[derive(Debug)]
pub struct Session {
    /// Where the server listens.
    pub address: String,
    /// Whether responses are waited for.
    pub command_has_answer: bool,
    /// Limit for response payloads.
    pub max_buffer_size: usize,
    /// Time limits.
    pub timeout_config: TimeoutConfig,
    /// Whether the connection is kept for the next request.
    pub keep_alive: bool,
    /// State of the background pings.
    pub ping_state: PingState,
}

/// What is left to do once connection reuse was switched off: wait for the ping task,
/// where there is one, and then drop the stream.
#[derive(Debug)]
pub struct Release {
    /// The time to wait for the ping task.
    pub patience: Option<Duration>,
}

impl Session {
    /// A payload limit is set, pings are enabled only with an interval, the ping interval is
    /// below `read_header`, and the pings go by the time limits of the session.
    pub open spec fn wf(self) -> bool {
        &&& self.max_buffer_size > 0
        &&& self.ping_state.wf()
        &&& self.timeout_config.pings_in_time()
        &&& self.ping_state.timeout_config == self.timeout_config
        &&& self.ping_state.config.interval == self.timeout_config.ping_interval
    }

    /// The session with its ping state replaced.
    pub open spec fn with_ping(self, ping_state: PingState) -> Session {
        Session { ping_state, ..self }
    }

    /// The session after connection reuse was switched on or off. Where it was on and
    /// is switched off, the ping task is told to stop.
    pub open spec fn with_keep_alive(self, enabled: bool) -> Session {
        let ping = if !enabled && self.keep_alive {
            self.ping_state.stopped()
        } else {
            self.ping_state
        };
        let config = PingConfig {
            enabled: enabled && ping.config.interval@ > 0,
            ..ping.config
        };
        Session { keep_alive: enabled, ping_state: PingState { config, ..ping }, ..self }
    }

    /// The session after the time limits `config` were accepted.
    pub open spec fn with_timeouts(self, config: TimeoutConfig) -> Session {
        let ping_config = PingConfig {
            interval: config.ping_interval,
            enabled: self.keep_alive && config.ping_interval@ > 0,
        };
        Session {
            timeout_config: config,
            ping_state: PingState {
                config: ping_config,
                timeout_config: config,
                ..self.ping_state
            },
            ..self
        }
    }

    /// The time to wait for the ping task once it was told to stop.
    pub open spec fn patience(self) -> Option<nat> {
        if self.ping_state.running {
            Some(stop_patience())
        } else {
            None
        }
    }

    /// A session with default settings.
    pub fn new(address: String, now: Duration) -> (session: Session)
        ensures
            session.wf(),
            session.timeout_config.is_default(),
            session.max_buffer_size == 10_485_760,
            session == (Session {
                address,
                command_has_answer: true,
                max_buffer_size: DEFAULT_MAX_BUFFER_SIZE,
                timeout_config: session.timeout_config,
                keep_alive: false,
                ping_state: PingState {
                    last_activity: now,
                    running: false,
                    should_stop: false,
                    status_owed: false,
                    config: PingConfig {
                        interval: session.timeout_config.ping_interval,
                        enabled: true,
                    },
                    timeout_config: session.timeout_config,
                },
            }),
    {
        let timeout_config = TimeoutConfig::default();
        let interval = timeout_config.ping_interval;
        let config = PingConfig { interval, enabled: interval > Duration::zero() };
        Session {
            address,
            command_has_answer: true,
            max_buffer_size: DEFAULT_MAX_BUFFER_SIZE,
            timeout_config,
            keep_alive: false,
            ping_state: PingState::new(config, timeout_config, now),
        }
    }

    /// Sets the limit for response payloads; zero resets it to the default.
    pub fn set_max_buffer_size(&mut self, buffer_size: usize)
        ensures
            old(self).wf() ==> final(self).wf(),
            *final(self) == (Session { max_buffer_size: buffer_limit(buffer_size), ..*old(self) }),
            buffer_size > 0 ==> final(self).max_buffer_size == buffer_size,
            buffer_size == 0 ==> final(self).max_buffer_size == 10_485_760,
    {
        self.max_buffer_size = choose_buffer_limit(buffer_size);
    }

    /// Sets whether responses are waited for.
    pub fn set_command_has_answer(&mut self, command_has_answer: bool)
        ensures
            old(self).wf() ==> final(self).wf(),
            *final(self) == (Session { command_has_answer, ..*old(self) }),
    {
        self.command_has_answer = command_has_answer;
    }

    /// Switches connection reuse on or off. Where it was on and is switched off, the
    /// connection is to be released.
    pub fn set_keep_alive(&mut self, enabled: bool) -> (release: Option<Release>)
        ensures
            old(self).wf() ==> final(self).wf(),
            *final(self) == old(self).with_keep_alive(enabled),
            release is Some <==> !enabled && old(self).keep_alive,
            release matches Some(duty) ==> span(duty.patience) == old(self).patience(),
            release matches Some(duty) ==> span(duty.patience) == if old(
                self,
            ).ping_state.running {
                Some(5_000_000_000nat)
            } else {
                None
            },
            final(self).keep_alive == enabled,
            final(self).timeout_config == old(self).timeout_config,
            final(self).ping_state.config.enabled == (enabled && old(
                self,
            ).ping_state.config.interval@ > 0),
    {
        let mut release: Option<Release> = None;
        if !enabled && self.keep_alive {
            release = Some(Release { patience: self.ping_state.stop_ping_task() });
        }
        self.keep_alive = enabled;
        self.ping_state.config.enabled = enabled && self.ping_state.config.interval
            > Duration::zero();
        release
    }

    /// Sets the time limits, with the ping interval lowered where needed to stay below
    /// `read_header`. Fails, and changes nothing, where `read_header` is zero.
    pub fn set_timeout_config(&mut self, timeout_config: TimeoutConfig) -> (result: Result<()>)
        ensures
            old(self).wf() ==> final(self).wf(),
            timeout_config.read_header@ > 0 ==> {
                let config = final(self).timeout_config;
                &&& result is Ok
                &&& config.has_interval(
                    timeout_config,
                    clamped_interval(timeout_config.ping_interval@, timeout_config.read_header@),
                )
                &&& config.pings_in_time()
                &&& *final(self) == old(self).with_timeouts(config)
            },
            timeout_config.read_header@ == 0 ==> {
                &&& outcome(result) == Err::<(), _>(TimeoutConfig::interval_error(0, 0))
                &&& *final(self) == *old(self)
            },
            result is Ok <==> timeout_config.read_header@ > 0,
            result is Ok ==> {
                let config = final(self).timeout_config;
                let interval = timeout_config.ping_interval@;
                let read_header = timeout_config.read_header@;
                &&& config.connect == timeout_config.connect
                &&& config.read_header == timeout_config.read_header
                &&& config.read_data == timeout_config.read_data
                &&& config.write == timeout_config.write
                &&& config.keep_alive == timeout_config.keep_alive
                &&& config.ping_interval@ < read_header
                &&& interval < read_header ==> config.ping_interval@ == interval
                &&& interval >= read_header >= 2_000_000_000 ==> config.ping_interval@
                    + 1_000_000_000 == read_header
                &&& interval >= read_header && read_header < 2_000_000_000 ==> 2
                    * config.ping_interval@ <= read_header <= 2 * config.ping_interval@ + 1
                &&& final(self).ping_state.config.interval == config.ping_interval
                &&& final(self).ping_state.config.enabled == (old(self).keep_alive
                    && config.ping_interval@ > 0)
                &&& final(self).ping_state.timeout_config == config
            },
    {
        let config = timeout_config.with_ping_interval(timeout_config.ping_interval);
        match config.validate() {
            Ok(_) => {},
            Err(error) => {
                return Err(error);
            },
        }
        let ping_enabled = self.keep_alive && config.ping_interval > Duration::zero();
        self.ping_state.config = PingConfig {
            interval: config.ping_interval,
            enabled: ping_enabled,
        };
        self.ping_state.timeout_config = config;
        self.timeout_config = config;
        Ok(())
    }
}

/// Switching connection reuse off and on again leaves it on, with pings enabled wherever
/// there is an interval and the former ping task stopped.
pub proof fn keep_alive_can_be_resumed(session: Session)
    requires
        session.keep_alive,
    ensures
        session.with_keep_alive(false).with_keep_alive(true) == session.with_ping(
            (PingState {
                config: PingConfig {
                    enabled: session.ping_state.config.interval@ > 0,
                    ..session.ping_state.config
                },
                ..session.ping_state.stopped()
            }),
        ),
{
}

/// Setting the time limits and switching connection reuse can be done in either order.
pub proof fn settings_commute(session: Session, config: TimeoutConfig, enabled: bool)
    ensures
        session.with_timeouts(config).with_keep_alive(enabled) == session.with_keep_alive(
            enabled,
        ).with_timeouts(config),
{
}

/// Without connection reuse no pings are enabled, whatever the time limits.
pub proof fn no_pings_without_keep_alive(session: Session, config: TimeoutConfig)
    ensures
        !session.with_keep_alive(false).ping_state.config.enabled,
        !session.with_keep_alive(false).with_timeouts(config).ping_state.config.enabled,
{
}

/// Switching connection reuse touches the ping task only where reuse was on and goes off:
/// then the task is told to stop, and is no longer counted. Pings are enabled with reuse,
/// where there is an interval. All other settings stay.
pub proof fn reuse_is_switched_alone(session: Session, enabled: bool)
    ensures
        ({
            let after = session.with_keep_alive(enabled);
            let ends = session.keep_alive && !enabled;
            &&& after.keep_alive == enabled
            &&& after.address == session.address
            &&& after.command_has_answer == session.command_has_answer
            &&& after.max_buffer_size == session.max_buffer_size
            &&& after.timeout_config == session.timeout_config
            &&& after.ping_state.config.enabled == (enabled && session.ping_state.config.interval@
                > 0)
            &&& after.ping_state.config.interval == session.ping_state.config.interval
            &&& after.ping_state.timeout_config == session.ping_state.timeout_config
            &&& after.ping_state.last_activity == session.ping_state.last_activity
            &&& after.ping_state.status_owed == session.ping_state.status_owed
            &&& after.ping_state.should_stop == (session.ping_state.should_stop || ends)
            &&& after.ping_state.running == (session.ping_state.running && !ends)
        }),
{
}

/// Time limits hold for requests and pings alike, and the ping interval is theirs. Pings
/// are enabled where connections are kept and there is an interval. All other settings,
/// and the ping task, stay.
pub proof fn time_limits_are_set_alone(session: Session, config: TimeoutConfig)
    ensures
        ({
            let after = session.with_timeouts(config);
            &&& after.timeout_config == config
            &&& after.ping_state.timeout_config == config
            &&& after.ping_state.config.interval == config.ping_interval
            &&& after.ping_state.config.enabled == (session.keep_alive && config.ping_interval@ > 0)
            &&& after.keep_alive == session.keep_alive
            &&& after.address == session.address
            &&& after.command_has_answer == session.command_has_answer
            &&& after.max_buffer_size == session.max_buffer_size
            &&& after.ping_state.last_activity == session.ping_state.last_activity
            &&& after.ping_state.status_owed == session.ping_state.status_owed
            &&& after.ping_state.should_stop == session.ping_state.should_stop
            &&& after.ping_state.running == session.ping_state.running
        }),
{
}

/// A running ping task is waited for five seconds, and no other.
pub proof fn patience_in_numbers(session: Session)
    ensures
        session.ping_state.running ==> session.patience() == Some(5_000_000_000nat),
        !session.ping_state.running ==> session.patience() is None,
{
}

/// What a well-formed session is, in numbers, and that replacing its ping state leaves its
/// settings.
pub proof fn well_formed_sessions(session: Session, ping_state: PingState)
    ensures
        session.wf() <==> {
            &&& session.max_buffer_size >= 1
            &&& session.ping_state.config.enabled ==> session.ping_state.config.interval@ >= 1
            &&& session.timeout_config.ping_interval@ < session.timeout_config.read_header@
            &&& session.ping_state.timeout_config == session.timeout_config
            &&& session.ping_state.config.interval == session.timeout_config.ping_interval
        },
        ({
            let after = session.with_ping(ping_state);
            &&& after.ping_state == ping_state
            &&& after.address == session.address
            &&& after.command_has_answer == session.command_has_answer
            &&& after.max_buffer_size == session.max_buffer_size
            &&& after.timeout_config == session.timeout_config
            &&& after.keep_alive == session.keep_alive
        }),
{
}

} // verus!
