//! Keep-alive probes of the operating system.

use vstd::prelude::*;

use crate::duration::NANOS_PER_SEC;
use crate::timeout_config::KeepAliveConfig;

verus! {

/// `socket2::TcpKeepalive`, a set of keep-alive parameters. What it holds is known by the
/// two names below.
#[verifier::external_type_specification]
#[verifier::external_body]
pub struct ExTcpKeepalive(socket2::TcpKeepalive);

/// The idle time before the first probe that `params` holds, in nanoseconds; `None`
/// where it is left to the system.
pub uninterp spec fn probe_time(params: socket2::TcpKeepalive) -> Option<nat>;

/// The time between probes that `params` holds, in nanoseconds; `None` where it is left
/// to the system.
pub uninterp spec fn probe_interval(params: socket2::TcpKeepalive) -> Option<nat>;

/// `socket2::TcpKeepalive::new`: a set of parameters that leaves both times to the
/// system.
#[verifier::external_body]
fn system_probes() -> (params: socket2::TcpKeepalive)
    ensures
        probe_time(params) is None,
        probe_interval(params) is None,
{
    socket2::TcpKeepalive::new()
}

/// `socket2::TcpKeepalive::with_time`: sets the idle time before the first probe and
/// keeps the rest.
#[verifier::external_body]
fn with_probe_time(params: socket2::TcpKeepalive, secs: u64, nanos: u32) -> (timed:
    socket2::TcpKeepalive)
    requires
        nanos < NANOS_PER_SEC,
    ensures
        probe_time(timed) == Some((secs * NANOS_PER_SEC + nanos) as nat),
        probe_interval(timed) == probe_interval(params),
{
    params.with_time(std::time::Duration::new(secs, nanos))
}

/// `socket2::TcpKeepalive::with_interval`: sets the time between probes and keeps the
/// rest.
#[verifier::external_body]
fn with_probe_interval(params: socket2::TcpKeepalive, secs: u64, nanos: u32) -> (timed:
    socket2::TcpKeepalive)
    requires
        nanos < NANOS_PER_SEC,
    ensures
        probe_interval(timed) == Some((secs * NANOS_PER_SEC + nanos) as nat),
        probe_time(timed) == probe_time(params),
{
    params.with_interval(std::time::Duration::new(secs, nanos))
}

impl KeepAliveConfig {
    /// The parameters to hand to the socket.
    pub fn tcp_keepalive(&self) -> (params: socket2::TcpKeepalive)
        ensures
            probe_time(params) == Some(self.time@),
            probe_interval(params) == Some(self.interval@),
    {
        let params = with_probe_time(
            system_probes(),
            self.time.as_secs(),
            self.time.subsec_nanos(),
        );
        with_probe_interval(params, self.interval.as_secs(), self.interval.subsec_nanos())
    }
}

} // verus!
