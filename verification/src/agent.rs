//! The agent as a whole: the relay server, the tunnel client and the
//! cameras, summed up.

use vstd::prelude::*;
use crate::app_state::{text_of, uptime_secs, AgentConfig, AgentStatus, ProcessHandle};
use crate::camera_manager::{count_running, running_count, CameraRegistry};

verus! {

/// `n` as a 32-bit count, `u32::MAX` where it does not fit.
pub open spec fn capped_count(n: int) -> u32 {
    if n <= u32::MAX {
        n as u32
    } else {
        u32::MAX
    }
}

/// `n` as a 32-bit count.
fn to_count(n: usize) -> (count: u32)
    ensures
        count == capped_count(n as int),
{
    if n <= u32::MAX as usize {
        n as u32
    } else {
        u32::MAX
    }
}

/// Sums up the agent at `now`: whether it runs, whether the relay server
/// and the tunnel client have a handle, how many cameras there are and how
/// many of them run, the tunnel's host name, and for how long the relay
/// server has been up.
pub fn agent_status(
    running: bool,
    mediamtx: &Option<ProcessHandle>,
    cloudflared: &Option<ProcessHandle>,
    cameras: &CameraRegistry,
    config: &AgentConfig,
    now: i64,
) -> (status: AgentStatus)
    ensures
        status.running == running,
        status.mediamtx_running == (*mediamtx is Some),
        status.cloudflared_running == (*cloudflared is Some),
        status.cameras_running == capped_count(running_count(cameras@)),
        status.cameras_total == capped_count(cameras@.len() as int),
        text_of(status.tunnel_url) == text_of(config.tunnel_hostname),
        status.uptime_secs == match *mediamtx {
            Some(handle) => uptime_secs(handle.started_at, now),
            None => 0,
        },
{
    let uptime = match mediamtx {
        Some(handle) => handle.uptime(now),
        None => 0,
    };
    let tunnel_url = match &config.tunnel_hostname {
        Some(host) => Some(host.clone()),
        None => None,
    };
    AgentStatus {
        running,
        mediamtx_running: mediamtx.is_some(),
        cloudflared_running: cloudflared.is_some(),
        cameras_running: to_count(count_running(cameras)),
        cameras_total: to_count(cameras.len()),
        tunnel_url,
        uptime_secs: uptime,
    }
}

} // verus!
