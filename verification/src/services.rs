//! The connection lifecycle manager: connect, disconnect and
//! force-kill operations over a profile store and the tunnel service,
//! preserving the invariant that at most one tunnel is active.
//!
//! All process control is the caller's part: it runs the process
//! listing, the kill strategies and the spawn, and hands their
//! outcomes in as plain values; every decision taken on those outcomes
//! is made — and verified — here.

use vstd::prelude::*;
use vstd::string::StringExecFns;
use crate::entities::with_state;
use crate::entities::ConnectionState;
use crate::entities::StateView;
use crate::entities::Vpn;
use crate::entities::VpnStatus;
use crate::entities::VpnView;
use crate::openvpn::kill_failure_message;
use crate::openvpn::kill_verdict_ok;
use crate::openvpn::spawn_failure_message;
use crate::openvpn::OpenVpnService;
use crate::repository::find_index;
use crate::repository::find_vpn;
use crate::repository::lemma_find_index_at;
use crate::repository::lemma_find_index_some;
use crate::repository::unique_ids;
use crate::repository::MemoryVpnRepository;
use crate::scan::connected_config_of;

verus! {

/// Errors raised by the lifecycle manager.
#[derive(Debug, PartialEq, Eq)]
pub enum VpnServiceError {
    VpnNotFound(String),
    ConnectionFailed(String),
    RepositoryError(String),
    OpenVpnError(String),
}

impl Clone for VpnServiceError {
    fn clone(&self) -> (r: Self)
        ensures
            r == *self,
    {
        match self {
            VpnServiceError::VpnNotFound(m) => VpnServiceError::VpnNotFound(m.clone()),
            VpnServiceError::ConnectionFailed(m) => VpnServiceError::ConnectionFailed(m.clone()),
            VpnServiceError::RepositoryError(m) => VpnServiceError::RepositoryError(m.clone()),
            VpnServiceError::OpenVpnError(m) => VpnServiceError::OpenVpnError(m.clone()),
        }
    }
}

impl VpnServiceError {
    /// A human-readable description of the error.
    pub fn message(&self) -> (r: String)
        ensures
            self matches VpnServiceError::VpnNotFound(m) ==> r@ == "VPN not found: "@ + m@,
            self matches VpnServiceError::ConnectionFailed(m) ==> r@ == "Connection failed: "@
                + m@,
            self matches VpnServiceError::RepositoryError(m) ==> r@ == "Repository error: "@ + m@,
            self matches VpnServiceError::OpenVpnError(m) ==> r@ == "OpenVPN service error: "@
                + m@,
    {
        match self {
            VpnServiceError::VpnNotFound(m) => {
                let mut s = "VPN not found: ".to_owned();
                s.append(m.as_str());
                s
            },
            VpnServiceError::ConnectionFailed(m) => {
                let mut s = "Connection failed: ".to_owned();
                s.append(m.as_str());
                s
            },
            VpnServiceError::RepositoryError(m) => {
                let mut s = "Repository error: ".to_owned();
                s.append(m.as_str());
                s
            },
            VpnServiceError::OpenVpnError(m) => {
                let mut s = "OpenVPN service error: ".to_owned();
                s.append(m.as_str());
                s
            },
        }
    }
}

/// The profile believes itself on the way up or up.
pub open spec fn is_active(v: VpnView) -> bool {
    v.status.state is Connected || v.status.state is Connecting
}

/// Every active profile moved to `Disconnected` with a cleared
/// address; the others untouched.
pub open spec fn mark_all_disconnected(vs: Seq<VpnView>) -> Seq<VpnView> {
    vs.map_values(
        |v: VpnView|
            if is_active(v) {
                with_state(v, StateView::Disconnected)
            } else {
                v
            },
    )
}

/// The observation says this profile's tunnel is the one running.
pub open spec fn observed_should_connect(v: VpnView, cfg: Option<Seq<char>>) -> bool {
    cfg matches Some(c) && v.config_path == c
}

/// One profile reconciled against the observed tunnel config: its
/// state is rewritten only when its connected flag disagrees with the
/// observation, so an agreeing profile keeps its status — connect
/// timestamp included.
pub open spec fn sync_one(v: VpnView, cfg: Option<Seq<char>>) -> VpnView {
    let should = observed_should_connect(v, cfg);
    if (v.status.state is Connected) != should {
        with_state(
            v,
            if should {
                StateView::Connected
            } else {
                StateView::Disconnected
            },
        )
    } else {
        v
    }
}

/// A whole listing reconciled against the observed tunnel config.
pub open spec fn sync_all(vs: Seq<VpnView>, cfg: Option<Seq<char>>) -> Seq<VpnView> {
    vs.map_values(|v: VpnView| sync_one(v, cfg))
}

/// The lifecycle manager's whole state: the stored profiles and the
/// tunnel service's two beliefs.
pub ghost struct ServiceState {
    pub vpns: Seq<VpnView>,
    pub connected: bool,
    pub has_process: bool,
}

/// What `disconnect_current` does: nothing but flag repair when the
/// observation shows no tunnel; otherwise the tunnel is released and
/// every active profile is marked disconnected.
pub open spec fn spec_disconnect_current(s: ServiceState, observed_cfg: Option<Seq<char>>)
    -> ServiceState {
    if observed_cfg is None {
        ServiceState { connected: false, ..s }
    } else {
        ServiceState {
            vpns: mark_all_disconnected(s.vpns),
            connected: false,
            has_process: false,
        }
    }
}

/// Orchestrates connect, disconnect and force-kill over the profile
/// store and the tunnel service.
pub struct VpnApplicationService {
    vpn_repository: MemoryVpnRepository,
    openvpn_service: OpenVpnService,
}

impl VpnApplicationService {
    /// The stored profiles, in listing order.
    pub closed spec fn spec_vpns(&self) -> Seq<VpnView> {
        self.vpn_repository@
    }

    /// The stored profile values themselves, timestamps included.
    pub closed spec fn spec_profile_values(&self) -> Seq<Vpn> {
        self.vpn_repository.spec_elems()
    }

    /// The tunnel service's cached connected belief.
    pub closed spec fn spec_connected(&self) -> bool {
        self.openvpn_service.spec_connected()
    }

    /// Whether a tunnel subprocess handle is held.
    pub closed spec fn spec_has_process(&self) -> bool {
        self.openvpn_service.spec_has_process()
    }

    /// The manager's whole state.
    pub open spec fn spec_state(&self) -> ServiceState {
        ServiceState {
            vpns: self.spec_vpns(),
            connected: self.spec_connected(),
            has_process: self.spec_has_process(),
        }
    }

    pub fn new(vpn_repository: MemoryVpnRepository, openvpn_service: OpenVpnService) -> (r: Self)
        ensures
            r.spec_vpns() == vpn_repository@,
            r.spec_connected() == openvpn_service.spec_connected(),
            r.spec_has_process() == openvpn_service.spec_has_process(),
    {
        VpnApplicationService { vpn_repository, openvpn_service }
    }

    /// Rewrites each listed profile's status to agree with the tunnel
    /// that `ps_output` shows running, as `sync_all` says.  A profile
    /// whose connected flag already agrees with the observation is not
    /// touched at all, so its connect timestamp is never reset
    /// spuriously.
    pub fn sync_vpn_states(&self, vpns: &mut Vec<Vpn>, ps_output: &str)
        ensures
            final(vpns).deep_view() == sync_all(
                old(vpns).deep_view(),
                connected_config_of(ps_output@),
            ),
            forall|k: int|
                0 <= k < old(vpns)@.len() && ((#[trigger] old(vpns)@[k])@.status.state
                    is Connected) == observed_should_connect(
                    old(vpns)@[k]@,
                    connected_config_of(ps_output@),
                ) ==> final(vpns)@[k] == old(vpns)@[k],
    {
        let connected_config = self.openvpn_service.get_connected_vpn_config(ps_output);
        let ghost cfg = connected_config_of(ps_output@);
        let mut i: usize = 0;
        while i < vpns.len()
            invariant
                i <= vpns@.len(),
                vpns@.len() == old(vpns)@.len(),
                (connected_config matches Some(c) ==> cfg == Some(c@)),
                (connected_config is None ==> cfg is None),
                forall|k: int|
                    0 <= k < i ==> #[trigger] vpns@[k].deep_view() == sync_one(
                        old(vpns)@[k].deep_view(),
                        cfg,
                    ),
                forall|k: int|
                    0 <= k < i && ((#[trigger] old(vpns)@[k])@.status.state is Connected)
                        == observed_should_connect(old(vpns)@[k]@, cfg) ==> vpns@[k] == old(
                        vpns,
                    )@[k],
                forall|k: int| i <= k < vpns@.len() ==> #[trigger] vpns@[k] == old(vpns)@[k],
            decreases vpns@.len() - i,
        {
            let should_be_connected = match &connected_config {
                Some(c) => crate::text::str_eq(vpns[i].config_path(), c.as_str()),
                None => false,
            };
            if vpns[i].is_connected() != should_be_connected {
                let new_state = if should_be_connected {
                    ConnectionState::Connected
                } else {
                    ConnectionState::Disconnected
                };
                let mut v = vpns[i].clone();
                v.update_status(VpnStatus::new(new_state, String::new()));
                vpns[i] = v;
            }
            i = i + 1;
        }
        proof {
            assert(final(vpns).deep_view() =~= sync_all(old(vpns).deep_view(), cfg));
        }
    }

    /// Lists all profiles, each reconciled against the tunnel that
    /// `ps_output` shows running.  The stored profiles themselves are
    /// not rewritten, and a profile whose connected flag agrees with
    /// the observation is listed exactly as stored, connect timestamp
    /// included.
    pub fn list_vpns(&self, ps_output: &str) -> (r: Result<Vec<Vpn>, VpnServiceError>)
        ensures
            r is Ok,
            r matches Ok(vs) ==> ({
                &&& vs.deep_view() == sync_all(
                    self.spec_vpns(),
                    connected_config_of(ps_output@),
                )
                &&& vs@.len() == self.spec_profile_values().len()
                &&& forall|k: int|
                    0 <= k < self.spec_vpns().len() && ((#[trigger] self.spec_vpns()[k]).status.state
                        is Connected) == observed_should_connect(
                        self.spec_vpns()[k],
                        connected_config_of(ps_output@),
                    ) ==> vs@[k] == self.spec_profile_values()[k]
            }),
    {
        let mut vpns = self.vpn_repository.profiles();
        let ghost elems = self.spec_profile_values();
        let ghost views = self.spec_vpns();
        let ghost cfg = connected_config_of(ps_output@);
        proof {
            assert forall|k: int| 0 <= k < views.len() implies elems[k]@ == views[k] by {
                assert(vpns.deep_view()[k] == vpns@[k].deep_view());
            }
        }
        self.sync_vpn_states(&mut vpns, ps_output);
        proof {
            assert(vpns.deep_view().len() == vpns@.len());
            assert(vpns@.len() == elems.len());
            assert forall|k: int|
                0 <= k < views.len() && ((#[trigger] views[k]).status.state is Connected)
                    == observed_should_connect(views[k], cfg) implies vpns@[k] == elems[k] by {
                assert(elems[k]@ == views[k]);
            }
        }
        Ok(vpns)
    }

    /// The same reconciled listing as `list_vpns`.
    pub fn get_connection_status(&self, ps_output: &str) -> (r: Result<Vec<Vpn>, VpnServiceError>)
        ensures
            r is Ok,
            r matches Ok(vs) ==> vs.deep_view() == sync_all(
                self.spec_vpns(),
                connected_config_of(ps_output@),
            ),
    {
        self.list_vpns(ps_output)
    }

    /// Marks every active profile `Disconnected` in the store.
    fn mark_profiles_disconnected(&mut self)
        ensures
            final(self).spec_vpns() == mark_all_disconnected(old(self).spec_vpns()),
            final(self).spec_connected() == old(self).spec_connected(),
            final(self).spec_has_process() == old(self).spec_has_process(),
    {
        let vpns = self.vpn_repository.profiles();
        let ghost orig = old(self).spec_vpns();
        let mut i: usize = 0;
        while i < vpns.len()
            invariant
                i <= vpns@.len(),
                vpns.deep_view() == orig,
                unique_ids(orig),
                self.vpn_repository@.len() == orig.len(),
                self.openvpn_service == old(self).openvpn_service,
                forall|k: int|
                    0 <= k < i ==> #[trigger] self.vpn_repository@[k] == mark_all_disconnected(
                        orig,
                    )[k],
                forall|k: int|
                    i <= k < orig.len() ==> #[trigger] self.vpn_repository@[k] == orig[k],
            decreases vpns@.len() - i,
        {
            if vpns[i].is_connected() || vpns[i].is_connecting() {
                let mut v = vpns[i].clone();
                v.update_status(VpnStatus::new(ConnectionState::Disconnected, String::new()));
                proof {
                    assert(self.vpn_repository@[i as int].id == orig[i as int].id);
                    assert forall|k: int| 0 <= k < i implies self.vpn_repository@[k].id
                        != v@.id by {
                        assert(self.vpn_repository@[k].id == orig[k].id);
                    }
                    lemma_find_index_at(self.vpn_repository@, v@.id, i as int);
                }
                self.vpn_repository.add_vpn(v);
            }
            i = i + 1;
        }
        proof {
            assert(final(self).spec_vpns() =~= mark_all_disconnected(orig));
        }
    }

    /// Records the outcome of the force-kill sequence the caller ran
    /// (see `OpenVpnService::force_kill_all`), then marks every active
    /// profile `Disconnected`.  When no strategy succeeded and a
    /// tunnel was still observed, the profiles are left as they were
    /// and the failure comes back as `OpenVpnError`.
    pub fn force_kill_all_vpns(&mut self, attempt_results: &Vec<bool>, still_running_after: bool)
        -> (r: Result<(), VpnServiceError>)
        ensures
            !final(self).spec_connected(),
            !final(self).spec_has_process(),
            r is Ok <==> kill_verdict_ok(attempt_results@, still_running_after),
            r is Ok ==> final(self).spec_vpns() == mark_all_disconnected(old(self).spec_vpns()),
            r matches Err(e) ==> final(self).spec_vpns() == old(self).spec_vpns() && (
            e matches VpnServiceError::OpenVpnError(m) && m@ == kill_failure_message()),
    {
        match self.openvpn_service.force_kill_all(attempt_results, still_running_after) {
            Ok(()) => {},
            Err(e) => {
                return Err(VpnServiceError::OpenVpnError(e));
            },
        }
        self.mark_profiles_disconnected();
        Ok(())
    }

    /// Connects the named profile: the caller's force-kill outcome is
    /// recorded first (enforcing the single-tunnel invariant), the
    /// profile is looked up among the marked profiles, moved through
    /// `Connecting`, and the caller's spawn outcome decides the end:
    /// `Connected` on success; on a spawn failure the profile is moved
    /// to `Error` with the wrapped spawn message — chosen over leaving
    /// it `Connecting`, so the failure stays observable — and the same
    /// message comes back as `OpenVpnError`.  No tunnel is spawned for
    /// an unknown profile: the lookup failure comes back as
    /// `VpnNotFound` with no handle held.
    pub fn connect_vpn(
        &mut self,
        vpn_id: &str,
        attempt_results: &Vec<bool>,
        still_running_after: bool,
        spawn_result: Result<(), String>,
    ) -> (r: Result<(), VpnServiceError>)
        ensures
            !kill_verdict_ok(attempt_results@, still_running_after) ==> ({
                &&& (r matches Err(e) && e matches VpnServiceError::OpenVpnError(m) && m@
                    == kill_failure_message())
                &&& final(self).spec_vpns() == old(self).spec_vpns()
                &&& !final(self).spec_connected() && !final(self).spec_has_process()
            }),
            (kill_verdict_ok(attempt_results@, still_running_after) && find_vpn(
                mark_all_disconnected(old(self).spec_vpns()),
                vpn_id@,
            ) is None) ==> ({
                &&& (r matches Err(e) && e matches VpnServiceError::VpnNotFound(m) && m@
                    == vpn_id@)
                &&& final(self).spec_vpns() == mark_all_disconnected(old(self).spec_vpns())
                &&& !final(self).spec_connected() && !final(self).spec_has_process()
            }),
            (kill_verdict_ok(attempt_results@, still_running_after) && find_vpn(
                mark_all_disconnected(old(self).spec_vpns()),
                vpn_id@,
            ) is Some) ==> ({
                let marked = mark_all_disconnected(old(self).spec_vpns());
                let i = find_index(marked, vpn_id@)->0;
                &&& spawn_result is Ok ==> ({
                    &&& r is Ok
                    &&& final(self).spec_vpns() == marked.update(
                        i,
                        with_state(marked[i], StateView::Connected),
                    )
                    &&& final(self).spec_connected() && final(self).spec_has_process()
                })
                &&& spawn_result matches Err(se) ==> ({
                    &&& (r matches Err(e) && e matches VpnServiceError::OpenVpnError(m) && m@
                        == spawn_failure_message(se@))
                    &&& final(self).spec_vpns() == marked.update(
                        i,
                        with_state(marked[i], StateView::Error(spawn_failure_message(se@))),
                    )
                    &&& !final(self).spec_connected() && !final(self).spec_has_process()
                })
            }),
    {
        match self.force_kill_all_vpns(attempt_results, still_running_after) {
            Ok(()) => {},
            Err(e) => {
                return Err(e);
            },
        }
        // the caller waits briefly here for the killed processes to be
        // reaped before the new tunnel is spawned
        let vpn = match self.vpn_repository.lookup(vpn_id) {
            Some(v) => v,
            None => {
                return Err(VpnServiceError::VpnNotFound(vpn_id.to_owned()));
            },
        };
        let ghost marked = mark_all_disconnected(old(self).spec_vpns());
        let ghost i: int = find_index(marked, vpn_id@)->0;
        proof {
            lemma_find_index_some(marked, vpn_id@, i);
        }
        let mut updated = vpn.clone();
        updated.update_status(VpnStatus::new(ConnectionState::Connecting, String::new()));
        proof {
            lemma_find_index_at(self.vpn_repository@, updated@.id, i);
        }
        self.vpn_repository.add_vpn(updated.clone());
        match self.openvpn_service.connect(vpn.config_path(), spawn_result) {
            Ok(()) => {
                updated.update_status(VpnStatus::new(ConnectionState::Connected, String::new()));
                proof {
                    lemma_find_index_at(self.vpn_repository@, updated@.id, i);
                }
                self.vpn_repository.add_vpn(updated);
                proof {
                    assert(final(self).spec_vpns() =~= marked.update(
                        i,
                        with_state(marked[i], StateView::Connected),
                    ));
                }
                Ok(())
            },
            Err(m) => {
                updated.update_status(
                    VpnStatus::new(ConnectionState::Error(m.clone()), String::new()),
                );
                proof {
                    lemma_find_index_at(self.vpn_repository@, updated@.id, i);
                }
                self.vpn_repository.add_vpn(updated);
                proof {
                    assert(final(self).spec_vpns() =~= marked.update(
                        i,
                        with_state(marked[i], StateView::Error(m@)),
                    ));
                }
                Err(VpnServiceError::OpenVpnError(m))
            },
        }
    }

    /// Disconnects the named profile: it is moved through
    /// `Disconnecting` to `Disconnected` and the tracked tunnel is
    /// released.  Fails with `VpnNotFound`, changing nothing, exactly
    /// when no profile carries the id.
    pub fn disconnect_vpn(&mut self, vpn_id: &str) -> (r: Result<(), VpnServiceError>)
        ensures
            r is Ok <==> find_vpn(old(self).spec_vpns(), vpn_id@) is Some,
            r is Ok ==> ({
                let i = find_index(old(self).spec_vpns(), vpn_id@)->0;
                &&& final(self).spec_vpns() == old(self).spec_vpns().update(
                    i,
                    with_state(old(self).spec_vpns()[i], StateView::Disconnected),
                )
                &&& !final(self).spec_connected() && !final(self).spec_has_process()
            }),
            r matches Err(e) ==> ({
                &&& (e matches VpnServiceError::VpnNotFound(m) && m@ == vpn_id@)
                &&& final(self).spec_vpns() == old(self).spec_vpns()
                &&& final(self).spec_connected() == old(self).spec_connected()
                &&& final(self).spec_has_process() == old(self).spec_has_process()
            }),
    {
        let vpn = match self.vpn_repository.lookup(vpn_id) {
            Some(v) => v,
            None => {
                return Err(VpnServiceError::VpnNotFound(vpn_id.to_owned()));
            },
        };
        let ghost orig = old(self).spec_vpns();
        let ghost i: int = find_index(orig, vpn_id@)->0;
        proof {
            lemma_find_index_some(orig, vpn_id@, i);
        }
        let mut updated = vpn;
        updated.update_status(VpnStatus::new(ConnectionState::Disconnecting, String::new()));
        proof {
            lemma_find_index_at(self.vpn_repository@, updated@.id, i);
        }
        self.vpn_repository.add_vpn(updated.clone());
        let _ = self.openvpn_service.disconnect();
        updated.update_status(VpnStatus::new(ConnectionState::Disconnected, String::new()));
        proof {
            lemma_find_index_at(self.vpn_repository@, updated@.id, i);
        }
        self.vpn_repository.add_vpn(updated);
        proof {
            assert(final(self).spec_vpns() =~= orig.update(
                i,
                with_state(orig[i], StateView::Disconnected),
            ));
        }
        Ok(())
    }

    /// Releases whatever tunnel the observation shows: a no-op beyond
    /// flag repair when `ps_output` shows none, otherwise the tunnel
    /// is released and every active profile is marked `Disconnected`.
    /// Never fails, as `spec_disconnect_current` says.
    pub fn disconnect_current(&mut self, ps_output: &str) -> (r: Result<(), VpnServiceError>)
        ensures
            r is Ok,
            final(self).spec_state() == spec_disconnect_current(
                old(self).spec_state(),
                connected_config_of(ps_output@),
            ),
    {
        if !self.openvpn_service.is_connected(ps_output) {
            return Ok(());
        }
        let _ = self.openvpn_service.disconnect();
        self.mark_profiles_disconnected();
        Ok(())
    }
}

/// Repeating `disconnect_current` changes nothing: once a call has
/// run, a second call whose observation shows no tunnel — as holds
/// when no connect intervened — leaves the whole state as the first
/// call left it.
pub proof fn lemma_disconnect_current_idempotent(s: ServiceState, observed_cfg: Option<Seq<char>>)
    ensures
        spec_disconnect_current(spec_disconnect_current(s, observed_cfg), None)
            == spec_disconnect_current(s, observed_cfg),
{
}

/// After the force-kill marking, no profile is active: every profile
/// that was `Connected` or `Connecting` is `Disconnected`, and the
/// others are untouched.
pub proof fn lemma_force_kill_disconnects_all(vs: Seq<VpnView>)
    ensures
        mark_all_disconnected(vs).len() == vs.len(),
        forall|k: int|
            0 <= k < vs.len() && is_active(vs[k]) ==> #[trigger] mark_all_disconnected(
                vs,
            )[k].status.state is Disconnected,
        forall|k: int|
            0 <= k < vs.len() && !is_active(vs[k]) ==> #[trigger] mark_all_disconnected(vs)[k]
                == vs[k],
        forall|k: int| 0 <= k < vs.len() ==> !is_active(#[trigger] mark_all_disconnected(vs)[k]),
{
}

/// The single-tunnel invariant: after a successful connect of the
/// profile at index `i`, that profile is `Connected` and no other is —
/// in particular every profile that was `Connected` before has been
/// forced to `Disconnected` first.
pub proof fn lemma_connect_single_tunnel(vs: Seq<VpnView>, id: Seq<char>, i: int)
    requires
        find_index(mark_all_disconnected(vs), id) == Some(i),
    ensures
        ({
            let after = mark_all_disconnected(vs).update(
                i,
                with_state(mark_all_disconnected(vs)[i], StateView::Connected),
            );
            &&& after.len() == vs.len()
            &&& forall|j: int|
                0 <= j < after.len() ==> ((#[trigger] after[j].status.state is Connected) <==> j
                    == i)
            &&& forall|j: int|
                0 <= j < vs.len() && j != i && is_active(vs[j])
                    ==> (#[trigger] after[j].status.state is Disconnected)
        }),
{
    lemma_find_index_some(mark_all_disconnected(vs), id, i);
}

} // verus!
