//! Data-transfer shapes handed to the presentation layers.  The
//! connect timestamp travels as its decimal rendering in seconds since
//! the Unix epoch.

use vstd::prelude::*;
use crate::entities::StateView;

verus! {

/// Transfer shape of a connection state.
#[derive(Debug, PartialEq, Eq)]
pub enum ConnectionStateDto {
    Disconnected,
    Connecting,
    Connected,
    Disconnecting,
    Error(String),
}

impl View for ConnectionStateDto {
    type V = StateView;

    open spec fn view(&self) -> StateView {
        match self {
            ConnectionStateDto::Disconnected => StateView::Disconnected,
            ConnectionStateDto::Connecting => StateView::Connecting,
            ConnectionStateDto::Connected => StateView::Connected,
            ConnectionStateDto::Disconnecting => StateView::Disconnecting,
            ConnectionStateDto::Error(m) => StateView::Error(m@),
        }
    }
}

impl Clone for ConnectionStateDto {
    fn clone(&self) -> (r: Self)
        ensures
            r == *self,
    {
        match self {
            ConnectionStateDto::Disconnected => ConnectionStateDto::Disconnected,
            ConnectionStateDto::Connecting => ConnectionStateDto::Connecting,
            ConnectionStateDto::Connected => ConnectionStateDto::Connected,
            ConnectionStateDto::Disconnecting => ConnectionStateDto::Disconnecting,
            ConnectionStateDto::Error(m) => ConnectionStateDto::Error(m.clone()),
        }
    }
}

/// Transfer shape of a profile's status.
#[derive(Debug, PartialEq, Eq)]
pub struct VpnStatusDto {
    pub state: ConnectionStateDto,
    pub ip_address: String,
    pub connected_since: Option<String>,
}

impl Clone for VpnStatusDto {
    fn clone(&self) -> (r: Self)
        ensures
            r == *self,
    {
        VpnStatusDto {
            state: self.state.clone(),
            ip_address: self.ip_address.clone(),
            connected_since: match &self.connected_since {
                Some(s) => Some(s.clone()),
                None => None,
            },
        }
    }
}

/// Transfer shape of a profile.
#[derive(Debug, PartialEq, Eq)]
pub struct VpnDto {
    pub id: String,
    pub display_name: String,
    pub config_path: String,
    pub status: VpnStatusDto,
}

impl Clone for VpnDto {
    fn clone(&self) -> (r: Self)
        ensures
            r == *self,
    {
        VpnDto {
            id: self.id.clone(),
            display_name: self.display_name.clone(),
            config_path: self.config_path.clone(),
            status: self.status.clone(),
        }
    }
}

/// A request to connect the named profile.
#[derive(Debug, PartialEq, Eq)]
pub struct ConnectVpnRequest {
    pub vpn_id: String,
}

/// A request to disconnect the named profile.
#[derive(Debug, PartialEq, Eq)]
pub struct DisconnectVpnRequest {
    pub vpn_id: String,
}

/// The listing handed back to a presentation layer.
#[derive(Debug, PartialEq, Eq)]
pub struct VpnListResponse {
    pub vpns: Vec<VpnDto>,
}

/// The outcome of a connect or disconnect request.
#[derive(Debug, PartialEq, Eq)]
pub struct VpnConnectionResponse {
    pub success: bool,
    pub message: String,
    pub vpn: Option<VpnDto>,
}

} // verus!
