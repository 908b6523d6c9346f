//! The domain entities: a VPN profile (`Vpn`), its point-in-time
//! connection status (`VpnStatus`, `ConnectionState`) and the validation
//! errors raised when constructing a profile.
//!
//! `VpnStatus` maintains the invariant that its `connected_since`
//! timestamp is present exactly while the state is `Connected`; the
//! invariant is enforced as a type invariant, so it holds of every
//! status value the library ever hands out.

use vstd::prelude::*;
use vstd::string::StringExecFns;
use crate::text::is_blank;

verus! {

/// The believed connection state of one VPN profile.
#[derive(Debug, PartialEq, Eq)]
pub enum ConnectionState {
    Disconnected,
    Connecting,
    Connected,
    Disconnecting,
    Error(String),
}

/// Spec-level image of `ConnectionState`, with the error message as a
/// character sequence.
pub ghost enum StateView {
    Disconnected,
    Connecting,
    Connected,
    Disconnecting,
    Error(Seq<char>),
}

impl View for ConnectionState {
    type V = StateView;

    open spec fn view(&self) -> StateView {
        match self {
            ConnectionState::Disconnected => StateView::Disconnected,
            ConnectionState::Connecting => StateView::Connecting,
            ConnectionState::Connected => StateView::Connected,
            ConnectionState::Disconnecting => StateView::Disconnecting,
            ConnectionState::Error(m) => StateView::Error(m@),
        }
    }
}

impl Clone for ConnectionState {
    fn clone(&self) -> (r: Self)
        ensures
            r == *self,
    {
        match self {
            ConnectionState::Disconnected => ConnectionState::Disconnected,
            ConnectionState::Connecting => ConnectionState::Connecting,
            ConnectionState::Connected => ConnectionState::Connected,
            ConnectionState::Disconnecting => ConnectionState::Disconnecting,
            ConnectionState::Error(m) => ConnectionState::Error(m.clone()),
        }
    }
}

impl Default for ConnectionState {
    fn default() -> (r: Self)
        ensures
            r == ConnectionState::Disconnected,
    {
        ConnectionState::Disconnected
    }
}

/// Relies on `std::time::SystemTime::elapsed`, called on the Unix epoch,
/// for the wall-clock reading in whole seconds; a reading from before
/// the epoch is reported as zero.  Nothing is assumed of the value,
/// which depends on the clock.
#[verifier::external_body]
fn now_unix_secs() -> u64 {
    match std::time::UNIX_EPOCH.elapsed() {
        Ok(d) => d.as_secs(),
        Err(_) => 0,
    }
}

/// Spec-level image of `VpnStatus`.  The `connected_since` timestamp is
/// not part of the view: by the type invariant it is present exactly
/// while the state is `Connected`, and its value is a clock reading
/// that no transition pins down.
pub ghost struct StatusView {
    pub state: StateView,
    pub ip_address: Seq<char>,
}

/// The status a freshly constructed or reset profile carries.
pub open spec fn default_status_view() -> StatusView {
    StatusView { state: StateView::Disconnected, ip_address: Seq::empty() }
}

/// Point-in-time connection status of one VPN profile.
#[derive(Debug, PartialEq, Eq)]
pub struct VpnStatus {
    state: ConnectionState,
    ip_address: String,
    connected_since: Option<u64>,
}

impl View for VpnStatus {
    type V = StatusView;

    closed spec fn view(&self) -> StatusView {
        StatusView { state: self.state@, ip_address: self.ip_address@ }
    }
}

impl VpnStatus {
    /// The timestamp is present exactly while the state is `Connected`.
    #[verifier::type_invariant]
    spec fn wf(self) -> bool {
        self.connected_since is Some <==> self.state is Connected
    }

    /// The stored connect timestamp, in seconds since the Unix epoch.
    pub closed spec fn spec_connected_since(&self) -> Option<u64> {
        self.connected_since
    }

    /// A status in `state`, with the connect timestamp set to the
    /// current time exactly when `state` is `Connected`.
    pub fn new(state: ConnectionState, ip_address: String) -> (r: Self)
        ensures
            r@.state == state@,
            r@.ip_address == ip_address@,
            r.spec_connected_since() is Some <==> state is Connected,
    {
        let connected_since: Option<u64> = match &state {
            ConnectionState::Connected => Some(now_unix_secs()),
            _ => None,
        };
        VpnStatus { state, ip_address, connected_since }
    }

    pub fn state(&self) -> (r: &ConnectionState)
        ensures
            r@ == self@.state,
    {
        &self.state
    }

    pub fn ip_address(&self) -> (r: &str)
        ensures
            r@ == self@.ip_address,
    {
        self.ip_address.as_str()
    }

    /// The connect timestamp; present if and only if the state is
    /// `Connected`.
    pub fn connected_since(&self) -> (r: Option<u64>)
        ensures
            r == self.spec_connected_since(),
            r is Some <==> self@.state is Connected,
    {
        proof {
            use_type_invariant(&*self);
        }
        self.connected_since
    }

    /// Replaces the state, refreshing the connect timestamp: it is set
    /// to the current time exactly when the new state is `Connected`.
    pub fn set_state(&mut self, state: ConnectionState)
        ensures
            final(self)@.state == state@,
            final(self)@.ip_address == old(self)@.ip_address,
            final(self).spec_connected_since() is Some <==> state is Connected,
    {
        proof {
            use_type_invariant(&*self);
        }
        let connected_since: Option<u64> = match &state {
            ConnectionState::Connected => Some(now_unix_secs()),
            _ => None,
        };
        let mut ip_address = String::new();
        core::mem::swap(&mut ip_address, &mut self.ip_address);
        *self = VpnStatus { state, ip_address, connected_since };
    }

    pub fn set_ip_address(&mut self, ip: String)
        ensures
            final(self)@.state == old(self)@.state,
            final(self)@.ip_address == ip@,
            final(self).spec_connected_since() == old(self).spec_connected_since(),
    {
        proof {
            use_type_invariant(&*self);
        }
        self.ip_address = ip;
    }
}

impl Clone for VpnStatus {
    fn clone(&self) -> (r: Self)
        ensures
            r == *self,
    {
        proof {
            use_type_invariant(&*self);
        }
        VpnStatus {
            state: self.state.clone(),
            ip_address: self.ip_address.clone(),
            connected_since: self.connected_since,
        }
    }
}

impl Default for VpnStatus {
    fn default() -> (r: Self)
        ensures
            r@ == default_status_view(),
            r.spec_connected_since() is None,
    {
        let r = VpnStatus {
            state: ConnectionState::Disconnected,
            ip_address: String::new(),
            connected_since: None,
        };
        proof {
            assert(r@.ip_address =~= Seq::<char>::empty());
        }
        r
    }
}

/// Validation and connection errors raised around a profile.
#[derive(Debug, PartialEq, Eq)]
pub enum VpnError {
    EmptyId,
    EmptyConfigPath,
    InvalidConfigFile(String),
    ConnectionFailed(String),
}

impl Clone for VpnError {
    fn clone(&self) -> (r: Self)
        ensures
            r == *self,
    {
        match self {
            VpnError::EmptyId => VpnError::EmptyId,
            VpnError::EmptyConfigPath => VpnError::EmptyConfigPath,
            VpnError::InvalidConfigFile(m) => VpnError::InvalidConfigFile(m.clone()),
            VpnError::ConnectionFailed(m) => VpnError::ConnectionFailed(m.clone()),
        }
    }
}

impl VpnError {
    /// A human-readable description of the error.
    pub fn message(&self) -> (r: String)
        ensures
            *self == VpnError::EmptyId ==> r@ == "VPN ID cannot be empty"@,
            *self == VpnError::EmptyConfigPath ==> r@ == "Config path cannot be empty"@,
            self matches VpnError::InvalidConfigFile(m) ==> r@ == "Invalid config file: "@ + m@,
            self matches VpnError::ConnectionFailed(m) ==> r@ == "Connection failed: "@ + m@,
    {
        match self {
            VpnError::EmptyId => "VPN ID cannot be empty".to_owned(),
            VpnError::EmptyConfigPath => "Config path cannot be empty".to_owned(),
            VpnError::InvalidConfigFile(m) => {
                let mut s = "Invalid config file: ".to_owned();
                s.append(m.as_str());
                s
            },
            VpnError::ConnectionFailed(m) => {
                let mut s = "Connection failed: ".to_owned();
                s.append(m.as_str());
                s
            },
        }
    }
}

/// Spec-level image of a `Vpn` profile.
pub ghost struct VpnView {
    pub id: Seq<char>,
    pub display_name: Seq<char>,
    pub config_path: Seq<char>,
    pub status: StatusView,
}

/// The view of a profile after it was moved to `state` with a cleared
/// address.
pub open spec fn with_state(v: VpnView, state: StateView) -> VpnView {
    VpnView { status: StatusView { state: state, ip_address: Seq::empty() }, ..v }
}

/// One importable VPN profile and its believed status.
#[derive(Debug, PartialEq, Eq)]
pub struct Vpn {
    id: String,
    display_name: String,
    config_path: String,
    status: VpnStatus,
}

impl View for Vpn {
    type V = VpnView;

    closed spec fn view(&self) -> VpnView {
        VpnView {
            id: self.id@,
            display_name: self.display_name@,
            config_path: self.config_path@,
            status: self.status@,
        }
    }
}

impl DeepView for Vpn {
    type V = VpnView;

    open spec fn deep_view(&self) -> VpnView {
        self.view()
    }
}

impl Vpn {
    /// The full status value, timestamp included.
    pub closed spec fn spec_status(&self) -> VpnStatus {
        self.status
    }

    /// A profile with the given identity and a fresh disconnected
    /// status.  This constructor does not validate its inputs; see
    /// `try_new` for the validating form.
    pub fn new(id: String, display_name: String, config_path: String) -> (r: Self)
        ensures
            r@.id == id@,
            r@.display_name == display_name@,
            r@.config_path == config_path@,
            r@.status == default_status_view(),
            r.spec_status().spec_connected_since() is None,
    {
        Vpn { id, display_name, config_path, status: VpnStatus::default() }
    }

    /// The validating constructor: fails with `EmptyId` when the id is
    /// empty or all whitespace, then with `EmptyConfigPath` when the
    /// config path is; succeeds on all other inputs.
    pub fn try_new(id: String, display_name: String, config_path: String) -> (r: Result<
        Self,
        VpnError,
    >)
        ensures
            r is Err <==> is_blank(id@) || is_blank(config_path@),
            is_blank(id@) ==> r == Err::<Vpn, VpnError>(VpnError::EmptyId),
            !is_blank(id@) && is_blank(config_path@) ==> r == Err::<Vpn, VpnError>(
                VpnError::EmptyConfigPath,
            ),
            r matches Ok(v) ==> v@.id == id@ && v@.display_name == display_name@
                && v@.config_path == config_path@ && v@.status == default_status_view()
                && v.spec_status().spec_connected_since() is None,
    {
        if crate::text::is_blank_str(id.as_str()) {
            return Err(VpnError::EmptyId);
        }
        if crate::text::is_blank_str(config_path.as_str()) {
            return Err(VpnError::EmptyConfigPath);
        }
        Ok(Self::new(id, display_name, config_path))
    }

    pub fn id(&self) -> (r: &str)
        ensures
            r@ == self@.id,
    {
        self.id.as_str()
    }

    pub fn display_name(&self) -> (r: &str)
        ensures
            r@ == self@.display_name,
    {
        self.display_name.as_str()
    }

    pub fn config_path(&self) -> (r: &str)
        ensures
            r@ == self@.config_path,
    {
        self.config_path.as_str()
    }

    pub fn status(&self) -> (r: &VpnStatus)
        ensures
            *r == self.spec_status(),
            r@ == self@.status,
    {
        &self.status
    }

    /// Replaces the whole status.
    pub fn update_status(&mut self, status: VpnStatus)
        ensures
            final(self).spec_status() == status,
            final(self)@ == (VpnView { status: status@, ..old(self)@ }),
    {
        self.status = status;
    }

    pub fn is_connected(&self) -> (r: bool)
        ensures
            r == (self@.status.state is Connected),
    {
        matches!(self.status.state(), ConnectionState::Connected)
    }

    pub fn is_connecting(&self) -> (r: bool)
        ensures
            r == (self@.status.state is Connecting),
    {
        matches!(self.status.state(), ConnectionState::Connecting)
    }

    pub fn is_disconnected(&self) -> (r: bool)
        ensures
            r == (self@.status.state is Disconnected),
    {
        matches!(self.status.state(), ConnectionState::Disconnected)
    }
}

impl Clone for Vpn {
    fn clone(&self) -> (r: Self)
        ensures
            r == *self,
    {
        Vpn {
            id: self.id.clone(),
            display_name: self.display_name.clone(),
            config_path: self.config_path.clone(),
            status: self.status.clone(),
        }
    }
}

} // verus!
