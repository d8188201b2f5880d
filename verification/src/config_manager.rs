//! What the agent puts into the configuration files it writes, and how it
//! tells a tunnel's credentials file from other files. Reading and writing
//! the files is the caller's part.

use vstd::prelude::*;
use crate::text::{decimal, decimal_text, same_text};

verus! {

/// The credentials of one tunnel, found on disk.
#[derive(Debug, PartialEq, Eq)]
pub struct TunnelCredentials {
    pub tunnel_id: String,
    pub credentials_file: String,
}

/// What the tunnel client has left on this machine.
#[derive(Debug, PartialEq, Eq)]
pub struct CloudflaredTunnelInfo {
    pub cloudflared_dir: String,
    pub is_authenticated: bool,
    pub tunnels: Vec<TunnelCredentials>,
}

/// Whether a file's stem reads like the id of a tunnel: more than thirty
/// bytes long, with a hyphen.
pub open spec fn tunnel_id_like(stem: &str) -> bool {
    stem@.contains('-') && stem.len() > 30
}

/// Whether `stem`, the name of a credentials file without its extension,
/// reads like the id of a tunnel.
pub fn looks_like_tunnel_id(stem: &str) -> (like: bool)
    ensures
        like == tunnel_id_like(stem),
{
    if stem.len() <= 30 {
        return false;
    }
    let n = stem.unicode_len();
    let mut i: usize = 0;
    while i < n
        invariant
            i <= n,
            n == stem@.len(),
            stem.len() > 30,
            forall|j: int| 0 <= j < i ==> stem@[j] != '-',
        decreases n - i,
    {
        if stem.get_char(i) == '-' {
            assert(stem@[i as int] == '-');
            return true;
        }
        i += 1;
    }
    false
}

/// The routing part of a tunnel configuration: everything for `hostname` to
/// the local port, or, without a host name, just the local port.
pub open spec fn ingress_text(hostname: Option<Seq<char>>, target_port: u16) -> Seq<char> {
    match hostname {
        Some(host) => "\ningress:\n  - hostname: "@ + host + "\n    service: http://localhost:"@
            + decimal_text(target_port as nat) + "\n  - service: http_status:404\n"@,
        None => "\ningress:\n  - service: http://localhost:"@ + decimal_text(target_port as nat)
            + "\n"@,
    }
}

/// The configuration file of the tunnel client for an existing tunnel.
pub open spec fn cloudflared_config(
    tunnel_id: Seq<char>,
    credentials_file: Seq<char>,
    hostname: Option<Seq<char>>,
    target_port: u16,
) -> Seq<char> {
    "# Cloudflared Tunnel Configuration\n# Auto-generated by Stream Agent\n\ntunnel: "@ + tunnel_id
        + "\ncredentials-file: "@ + credentials_file + "\n"@ + ingress_text(hostname, target_port)
        + "\n"@
}

/// The text of a string slice that may be absent.
pub open spec fn slice_text(text: Option<&str>) -> Option<Seq<char>> {
    match text {
        Some(text) => Some(text@),
        None => None,
    }
}

/// Writes out the configuration of the tunnel client for the tunnel
/// `tunnel_id`.
pub fn cloudflared_config_text(
    tunnel_id: &str,
    credentials_file: &str,
    hostname: Option<&str>,
    target_port: u16,
) -> (text: String)
    ensures
        text@ == cloudflared_config(
            tunnel_id@,
            credentials_file@,
            slice_text(hostname),
            target_port,
        ),
{
    let port = decimal(target_port as u64);
    let ingress = match hostname {
        Some(host) => String::from_str("\ningress:\n  - hostname: ").concat(host).concat(
            "\n    service: http://localhost:",
        ).concat(port.as_str()).concat("\n  - service: http_status:404\n"),
        None => String::from_str("\ningress:\n  - service: http://localhost:").concat(
            port.as_str(),
        ).concat("\n"),
    };
    String::from_str(
        "# Cloudflared Tunnel Configuration\n# Auto-generated by Stream Agent\n\ntunnel: ",
    ).concat(tunnel_id).concat("\ncredentials-file: ").concat(credentials_file).concat("\n").concat(
        ingress.as_str(),
    ).concat("\n")
}

/// What a configuration file holds when the agent creates it: an empty list
/// of cameras, the agent's switches, and nothing for any other file.
pub open spec fn default_content(file_name: Seq<char>) -> Seq<char> {
    if file_name == "cameras.json"@ {
        "{\n  \"cameras\": []\n}"@
    } else if file_name == "config.json"@ {
        "{\n  \"autoStartAgent\": false,\n  \"autoStartCameras\": true,\n  \"tunnelEnabled\": false,\n  \"tunnelMode\": \"quick\"\n}"@
    } else {
        ""@
    }
}

/// What the configuration file `file_name` holds when the agent creates it.
pub fn default_config_content(file_name: &str) -> (content: &'static str)
    ensures
        content@ == default_content(file_name@),
{
    if same_text(file_name, "cameras.json") {
        "{\n  \"cameras\": []\n}"
    } else if same_text(file_name, "config.json") {
        "{\n  \"autoStartAgent\": false,\n  \"autoStartCameras\": true,\n  \"tunnelEnabled\": false,\n  \"tunnelMode\": \"quick\"\n}"
    } else {
        ""
    }
}

/// The local port on which the relay serves streams to browsers, and to
/// which the tunnel forwards.
pub const RELAY_HTTP_PORT: u16 = 8888;

/// How the tunnel client is to be run.
#[derive(Debug, PartialEq, Eq)]
pub enum TunnelPlan {
    /// As the tunnel `tunnel_id`, whose credentials lie in
    /// `credentials_file`.
    Existing { tunnel_id: String, credentials_file: String },
    /// As a quick tunnel to the local port `local_port`.
    Quick { local_port: u16 },
}

/// Whether what the tunnel client has left on this machine allows running
/// an existing tunnel: the client is logged in and there is at least one
/// tunnel.
pub open spec fn has_usable_tunnel(info: Option<CloudflaredTunnelInfo>) -> bool {
    info matches Some(found) && found.is_authenticated && found.tunnels@.len() > 0
}

/// Decides how to run the tunnel client: as the first tunnel found, where
/// the client is logged in and a tunnel was found, and as a quick tunnel to
/// the relay otherwise.
pub fn choose_tunnel(info: &Option<CloudflaredTunnelInfo>) -> (plan: TunnelPlan)
    ensures
        match plan {
            TunnelPlan::Existing { tunnel_id, credentials_file } => {
                &&& has_usable_tunnel(*info)
                &&& tunnel_id@ == info->Some_0.tunnels@[0].tunnel_id@
                &&& credentials_file@ == info->Some_0.tunnels@[0].credentials_file@
            },
            TunnelPlan::Quick { local_port } => {
                &&& !has_usable_tunnel(*info)
                &&& local_port == RELAY_HTTP_PORT
            },
        },
{
    match info {
        Some(found) => {
            if found.is_authenticated && found.tunnels.len() > 0 {
                let first = &found.tunnels[0];
                TunnelPlan::Existing {
                    tunnel_id: first.tunnel_id.clone(),
                    credentials_file: first.credentials_file.clone(),
                }
            } else {
                TunnelPlan::Quick { local_port: RELAY_HTTP_PORT }
            }
        },
        None => TunnelPlan::Quick { local_port: RELAY_HTTP_PORT },
    }
}

} // verus!
