//! The tunnel process service: the manager's belief about the tunnel it
//! launched, reconciled against what the process table actually shows.
//!
//! The surrounding application owns the real subprocess handle and runs
//! the process-control commands; it reports their outcomes here as
//! plain values.  `has_process` mirrors whether a handle is held, and
//! `connected` caches the last reconciled observation.  Keeping both
//! beliefs in one value, behind one point of mutation, is what lets
//! `get_status` flag a disagreement between them instead of silently
//! resolving it.

use vstd::prelude::*;
use vstd::string::StringExecFns;
use crate::scan::connected_config_of;
use crate::scan::find_tunnel_config;

verus! {

/// Composite status of the tunnel service: the reconciled observation
/// combined with whether a subprocess handle is held.
#[derive(Debug, PartialEq, Eq)]
pub enum ConnectionStatus {
    Disconnected,
    Connecting,
    Connected,
    Error(String),
}

impl Clone for ConnectionStatus {
    fn clone(&self) -> (r: Self)
        ensures
            r == *self,
    {
        match self {
            ConnectionStatus::Disconnected => ConnectionStatus::Disconnected,
            ConnectionStatus::Connecting => ConnectionStatus::Connecting,
            ConnectionStatus::Connected => ConnectionStatus::Connected,
            ConnectionStatus::Error(m) => ConnectionStatus::Error(m.clone()),
        }
    }
}

/// The message a spawn failure is wrapped in.
pub open spec fn spawn_failure_message(e: Seq<char>) -> Seq<char> {
    "Failed to start OpenVPN process: "@ + e
        + ". Make sure OpenVPN is installed and you have proper permissions."@
}

/// The message returned when no kill strategy succeeded and a tunnel
/// process is still observed.
pub open spec fn kill_failure_message() -> Seq<char> {
    "Failed to kill OpenVPN processes. Try running with sudo or check if processes exist."@
}

/// Some strategy of the kill sequence reported success.
pub open spec fn any_attempt_succeeded(attempts: Seq<bool>) -> bool {
    exists|k: int| 0 <= k < attempts.len() && attempts[k]
}

/// The kill sequence counts as successful: a strategy succeeded, or no
/// tunnel was observed afterward.
pub open spec fn kill_verdict_ok(attempts: Seq<bool>, still_running_after: bool) -> bool {
    any_attempt_succeeded(attempts) || !still_running_after
}

/// The escalating kill strategies, in the order they are tried.
pub open spec fn kill_command_views() -> Seq<Seq<Seq<char>>> {
    seq![
        seq!["pkill"@, "-f"@, "openvpn"@],
        seq!["killall"@, "openvpn"@],
        seq!["sudo"@, "pkill"@, "-9"@, "-f"@, "openvpn"@],
        seq!["sudo"@, "killall"@, "-9"@, "openvpn"@],
    ]
}

/// The manager's belief about the tunnel process.
pub struct OpenVpnService {
    has_process: bool,
    connected: bool,
}

impl OpenVpnService {
    /// Whether the caller holds a subprocess handle for a tunnel this
    /// service believes it launched.
    pub closed spec fn spec_has_process(&self) -> bool {
        self.has_process
    }

    /// The cached belief that a tunnel is connected.
    pub closed spec fn spec_connected(&self) -> bool {
        self.connected
    }

    pub fn new() -> (r: Self)
        ensures
            !r.spec_has_process(),
            !r.spec_connected(),
    {
        OpenVpnService { has_process: false, connected: false }
    }

    /// The config path of the tunnel that `ps_output` shows running, as
    /// `connected_config_of` says.
    pub fn get_connected_vpn_config(&self, ps_output: &str) -> (r: Option<String>)
        ensures
            r matches Some(p) ==> connected_config_of(ps_output@) == Some(p@),
            r is None ==> connected_config_of(ps_output@) is None,
    {
        find_tunnel_config(ps_output)
    }

    /// Returns the system-observed truth read from `ps_output` and
    /// repairs the cached belief to match it.
    pub fn is_connected(&mut self, ps_output: &str) -> (r: bool)
        ensures
            r == (connected_config_of(ps_output@) is Some),
            final(self).spec_connected() == r,
            final(self).spec_has_process() == old(self).spec_has_process(),
    {
        let system_connected = find_tunnel_config(ps_output).is_some();
        self.connected = system_connected;
        system_connected
    }

    /// Composes the reconciled observation with whether a handle is
    /// held; a disagreement between the two surfaces as `Error` or
    /// `Connecting` rather than being resolved silently.
    pub fn get_status(&mut self, ps_output: &str) -> (r: ConnectionStatus)
        ensures
            final(self).spec_connected() == (connected_config_of(ps_output@) is Some),
            final(self).spec_has_process() == old(self).spec_has_process(),
            ({
                let observed = connected_config_of(ps_output@) is Some;
                let has = old(self).spec_has_process();
                &&& (observed && has) ==> r == ConnectionStatus::Connected
                &&& (!observed && !has) ==> r == ConnectionStatus::Disconnected
                &&& (observed && !has) ==> (r matches ConnectionStatus::Error(m)
                    && m@ == "Connected flag set but no process found"@)
                &&& (!observed && has) ==> r == ConnectionStatus::Connecting
            }),
    {
        let connected = self.is_connected(ps_output);
        let has_process = self.has_process;
        match (connected, has_process) {
            (true, true) => ConnectionStatus::Connected,
            (false, false) => ConnectionStatus::Disconnected,
            (true, false) => ConnectionStatus::Error(
                "Connected flag set but no process found".to_owned(),
            ),
            (false, true) => ConnectionStatus::Connecting,
        }
    }

    /// The argument list the tunnel binary is spawned with.
    pub fn build_openvpn_args(&self, config_path: &str) -> (r: Vec<String>)
        ensures
            r.deep_view() == seq!["--config"@, config_path@],
    {
        let mut r: Vec<String> = Vec::new();
        r.push("--config".to_owned());
        r.push(config_path.to_owned());
        proof {
            assert(r.deep_view() =~= seq!["--config"@, config_path@]);
        }
        r
    }

    /// Records the outcome of spawning the tunnel against
    /// `config_path`.  The caller first disconnects any tracked tunnel,
    /// spawns the binary with `build_openvpn_args` under privilege
    /// escalation, and reports the spawn outcome here.  On success the
    /// service holds the handle and believes itself connected; on
    /// failure it holds nothing and the error comes back wrapped.
    #[allow(unused_variables)]
    pub fn connect(&mut self, config_path: &str, spawn_result: Result<(), String>) -> (r: Result<
        (),
        String,
    >)
        ensures
            spawn_result is Ok ==> r is Ok && final(self).spec_has_process()
                && final(self).spec_connected(),
            spawn_result matches Err(e) ==> (!final(self).spec_has_process()
                && !final(self).spec_connected() && (r matches Err(m)
                && m@ == spawn_failure_message(e@))),
    {
        let _ = self.disconnect();
        match spawn_result {
            Ok(()) => {
                self.has_process = true;
                self.connected = true;
                Ok(())
            },
            Err(e) => {
                let mut m = "Failed to start OpenVPN process: ".to_owned();
                m.append(e.as_str());
                m.append(". Make sure OpenVPN is installed and you have proper permissions.");
                Err(m)
            },
        }
    }

    /// Releases the tracked tunnel.  The caller kills and reaps the
    /// subprocess whose handle it holds; failures there are reported by
    /// the caller and are not fatal, so this always succeeds.
    pub fn disconnect(&mut self) -> (r: Result<(), String>)
        ensures
            r is Ok,
            !final(self).spec_has_process(),
            !final(self).spec_connected(),
    {
        self.has_process = false;
        self.connected = false;
        Ok(())
    }

    /// The escalating kill strategies, in the order the caller runs
    /// them, as `kill_command_views` says.
    pub fn kill_commands(&self) -> (r: Vec<Vec<String>>)
        ensures
            r.deep_view() == kill_command_views(),
    {
        let mut c1: Vec<String> = Vec::new();
        c1.push("pkill".to_owned());
        c1.push("-f".to_owned());
        c1.push("openvpn".to_owned());
        let mut c2: Vec<String> = Vec::new();
        c2.push("killall".to_owned());
        c2.push("openvpn".to_owned());
        let mut c3: Vec<String> = Vec::new();
        c3.push("sudo".to_owned());
        c3.push("pkill".to_owned());
        c3.push("-9".to_owned());
        c3.push("-f".to_owned());
        c3.push("openvpn".to_owned());
        let mut c4: Vec<String> = Vec::new();
        c4.push("sudo".to_owned());
        c4.push("killall".to_owned());
        c4.push("-9".to_owned());
        c4.push("openvpn".to_owned());
        let mut r: Vec<Vec<String>> = Vec::new();
        r.push(c1);
        r.push(c2);
        r.push(c3);
        r.push(c4);
        proof {
            assert(r.deep_view()[0] =~= kill_command_views()[0]);
            assert(r.deep_view()[1] =~= kill_command_views()[1]);
            assert(r.deep_view()[2] =~= kill_command_views()[2]);
            assert(r.deep_view()[3] =~= kill_command_views()[3]);
            assert(r.deep_view() =~= kill_command_views());
        }
        r
    }

    /// Records the outcome of the kill sequence.  The caller drops the
    /// tracked handle, runs the strategies from `kill_commands` in
    /// order — stopping early once the process table shows no tunnel —
    /// and reports each strategy's exit success in `attempt_results`,
    /// with `still_running_after` the final process-table observation.
    /// The sequence failed only if no strategy succeeded and a tunnel
    /// was still observed afterward.
    pub fn force_kill_all(&mut self, attempt_results: &Vec<bool>, still_running_after: bool) -> (r:
        Result<(), String>)
        ensures
            !final(self).spec_has_process(),
            !final(self).spec_connected(),
            r is Ok <==> kill_verdict_ok(attempt_results@, still_running_after),
            r matches Err(m) ==> m@ == kill_failure_message(),
    {
        self.has_process = false;
        self.connected = false;
        let mut killed_any = false;
        let mut k: usize = 0;
        while k < attempt_results.len()
            invariant
                k <= attempt_results@.len(),
                killed_any == exists|j: int| 0 <= j < k && #[trigger] attempt_results@[j],
            decreases attempt_results@.len() - k,
        {
            if attempt_results[k] {
                killed_any = true;
            }
            k = k + 1;
        }
        if killed_any || !still_running_after {
            Ok(())
        } else {
            Err(
                "Failed to kill OpenVPN processes. Try running with sudo or check if processes exist.".to_owned(),
            )
        }
    }
}

impl Default for OpenVpnService {
    fn default() -> (r: Self)
        ensures
            !r.spec_has_process(),
            !r.spec_connected(),
    {
        Self::new()
    }
}

} // verus!
