//! Time limits of the transport and of its keep-alive.

use vstd::prelude::*;

use crate::duration::{duration_debug, format_duration, Duration, NANOS_PER_SEC};
use crate::error::{outcome, Error, Result};

verus! {

/// Time limits of the operations on a connection.
#[derive(Debug, Clone, Copy)]
pub struct TimeoutConfig {
    /// Limit for one attempt to connect.
    pub connect: Duration,
    /// Limit for reading a header.
    pub read_header: Duration,
    /// Limit for reading a payload.
    pub read_data: Duration,
    /// Limit for writing.
    pub write: Duration,
    /// Keep-alive probes of the operating system; `None` leaves their timing to it.
    pub keep_alive: Option<KeepAliveConfig>,
    /// Idle time after which a ping is sent. Must be less than `read_header`
    /// to be effective.
    pub ping_interval: Duration,
}

/// Timing of the operating system's keep-alive probes.
#[derive(Debug, Clone, Copy)]
pub struct KeepAliveConfig {
    /// Idle time before the first probe.
    pub time: Duration,
    /// Time between probes.
    pub interval: Duration,
}

impl Default for KeepAliveConfig {
    fn default() -> (config: KeepAliveConfig)
        ensures
            config.time@ == 30 * NANOS_PER_SEC,
            config.interval@ == 10 * NANOS_PER_SEC,
            config.time@ == 30_000_000_000,
            config.interval@ == 10_000_000_000,
    {
        KeepAliveConfig { time: Duration::from_secs(30), interval: Duration::from_secs(10) }
    }
}

impl Default for TimeoutConfig {
    fn default() -> (config: TimeoutConfig)
        ensures
            config.is_default(),
            config.connect@ == 10_000_000_000,
            config.read_header@ == 60_000_000_000,
            config.read_data@ == 60_000_000_000,
            config.write@ == 60_000_000_000,
            config.keep_alive is None,
            config.ping_interval@ == 30_000_000_000,
    {
        TimeoutConfig {
            connect: Duration::from_secs(10),
            read_header: Duration::from_secs(60),
            read_data: Duration::from_secs(60),
            write: Duration::from_secs(60),
            keep_alive: None,
            ping_interval: Duration::from_secs(30),
        }
    }
}

/// The ping interval that is used where `interval` is asked for. An interval below
/// `read_header` is used as it is. Any other becomes half of `read_header` where that is
/// below two seconds, and one second less than `read_header` from two seconds on.
pub open spec fn clamped_interval(interval: nat, read_header: nat) -> nat {
    if interval < read_header {
        interval
    } else if read_header < 2 * NANOS_PER_SEC {
        read_header / 2
    } else {
        (read_header - NANOS_PER_SEC) as nat
    }
}

impl TimeoutConfig {
    /// The limits that hold unless others are set.
    pub open spec fn is_default(self) -> bool {
        &&& self.connect@ == 10 * NANOS_PER_SEC
        &&& self.read_header@ == 60 * NANOS_PER_SEC
        &&& self.read_data@ == 60 * NANOS_PER_SEC
        &&& self.write@ == 60 * NANOS_PER_SEC
        &&& self.keep_alive is None
        &&& self.ping_interval@ == 30 * NANOS_PER_SEC
    }

    /// Pings come often enough to keep the peer from timing out.
    pub open spec fn pings_in_time(self) -> bool {
        self.ping_interval@ < self.read_header@
    }

    /// The configuration with its ping interval replaced.
    pub open spec fn has_interval(self, base: TimeoutConfig, interval: nat) -> bool {
        &&& self.connect == base.connect
        &&& self.read_header == base.read_header
        &&& self.read_data == base.read_data
        &&& self.write == base.write
        &&& self.keep_alive == base.keep_alive
        &&& self.ping_interval@ == interval
    }

    /// The error of a ping interval that is not below `read_header`.
    pub open spec fn interval_error(interval: nat, read_header: nat) -> Error<Seq<char>> {
        Error::Config(
            "TimeoutConfig invariant violated: ping_interval ("@ + duration_debug(interval)
                + ") >= read_header ("@ + duration_debug(read_header)
                + "). Pings may not prevent server-side connection timeout."@,
        )
    }

    /// What `validate` says of the configuration.
    pub open spec fn verdict(self) -> Result<(), Error<Seq<char>>> {
        if self.pings_in_time() {
            Ok(())
        } else {
            Err(TimeoutConfig::interval_error(self.ping_interval@, self.read_header@))
        }
    }

    /// Fails where the ping interval is not below `read_header`.
    pub fn validate(&self) -> (result: Result<()>)
        ensures
            outcome(result) == self.verdict(),
            result is Ok <==> self.ping_interval@ < self.read_header@,
            result matches Err(error) ==> error is Config,
    {
        if self.ping_interval >= self.read_header {
            let mut text = "TimeoutConfig invariant violated: ping_interval (".to_owned();
            text.append(format_duration(&self.ping_interval).as_str());
            text.append(") >= read_header (");
            text.append(format_duration(&self.read_header).as_str());
            text.append("). Pings may not prevent server-side connection timeout.");
            return Err(Error::Config(text));
        }
        Ok(())
    }

    /// Sets the ping interval, lowered where needed to stay below `read_header`.
    pub fn with_ping_interval(self, interval: Duration) -> (config: TimeoutConfig)
        ensures
            config.has_interval(self, clamped_interval(interval@, self.read_header@)),
            config.connect == self.connect,
            config.read_header == self.read_header,
            config.read_data == self.read_data,
            config.write == self.write,
            config.keep_alive == self.keep_alive,
            interval@ < self.read_header@ ==> config.ping_interval@ == interval@,
            interval@ >= self.read_header@ ==> {
                let lowered = config.ping_interval@;
                &&& self.read_header@ >= 2_000_000_000 ==> lowered + 1_000_000_000
                    == self.read_header@
                &&& self.read_header@ < 2_000_000_000 ==> 2 * lowered <= self.read_header@ <= 2
                    * lowered + 1
            },
    {
        let mut config = self;
        config.ping_interval = interval;
        if config.ping_interval >= config.read_header {
            config.ping_interval = if config.read_header < Duration::from_secs(2) {
                config.read_header.half()
            } else {
                config.read_header.saturating_sub(Duration::from_secs(1))
            };
        }
        config
    }
}

/// Clamping always gives a configuration that validates, except where `read_header` is
/// zero and no interval can be below it.
pub proof fn clamped_interval_is_in_time(interval: nat, read_header: nat)
    requires
        read_header > 0,
    ensures
        clamped_interval(interval, read_header) < read_header,
{
}

/// Clamping twice is clamping once.
pub proof fn clamping_is_idempotent(interval: nat, read_header: nat)
    ensures
        clamped_interval(clamped_interval(interval, read_header), read_header) == clamped_interval(
            interval,
            read_header,
        ),
{
}

/// Clamping never raises an interval.
pub proof fn clamping_never_raises(interval: nat, read_header: nat)
    ensures
        clamped_interval(interval, read_header) <= interval,
{
}

/// What clamping gives: the interval where it is below `read_header`; else one second less
/// than `read_header`, or half of it, rounded down, where it is below two seconds.
pub proof fn clamping_in_numbers(interval: nat, read_header: nat)
    ensures
        ({
            let lowered = clamped_interval(interval, read_header);
            &&& interval < read_header ==> lowered == interval
            &&& interval >= read_header >= 2_000_000_000 ==> lowered + 1_000_000_000 == read_header
            &&& interval >= read_header && read_header < 2_000_000_000 ==> 2 * lowered
                <= read_header <= 2 * lowered + 1
        }),
{
}

/// The default limits: ten seconds to connect, a minute for each read and write, a ping
/// every half minute, and the probes left to the system.
pub proof fn defaults_in_numbers(config: TimeoutConfig)
    ensures
        config.is_default() <==> {
            &&& config.connect@ == 10_000_000_000
            &&& config.read_header@ == 60_000_000_000
            &&& config.read_data@ == 60_000_000_000
            &&& config.write@ == 60_000_000_000
            &&& config.keep_alive is None
            &&& config.ping_interval@ == 30_000_000_000
        },
{
}

/// A configuration is valid exactly where pings come before the limit for headers runs out.
/// The error names both.
pub proof fn validity_in_numbers(config: TimeoutConfig)
    ensures
        config.ping_interval@ < config.read_header@ ==> config.verdict() == Ok::<
            (),
            Error<Seq<char>>,
        >(()),
        config.ping_interval@ >= config.read_header@ ==> config.verdict() == Err::<(), _>(
            Error::Config(
                "TimeoutConfig invariant violated: ping_interval ("@ + duration_debug(
                    config.ping_interval@,
                ) + ") >= read_header ("@ + duration_debug(config.read_header@)
                    + "). Pings may not prevent server-side connection timeout."@,
            ),
        ),
        config.pings_in_time() <==> config.ping_interval@ < config.read_header@,
{
}

/// Replacing the ping interval touches nothing else.
pub proof fn intervals_are_replaced_alone(
    config: TimeoutConfig,
    base: TimeoutConfig,
    interval: nat,
)
    ensures
        config.has_interval(base, interval) <==> {
            &&& config.connect == base.connect
            &&& config.read_header == base.read_header
            &&& config.read_data == base.read_data
            &&& config.write == base.write
            &&& config.keep_alive == base.keep_alive
            &&& config.ping_interval@ == interval
        },
{
}

} // verus!
