//! Mapping between the domain entities and their transfer shapes.

use vstd::prelude::*;
use vstd::string::StrSliceExecFns;
use crate::dtos::ConnectionStateDto;
use crate::dtos::VpnDto;
use crate::dtos::VpnStatusDto;
use crate::entities::ConnectionState;
use crate::entities::StateView;
use crate::entities::Vpn;
use crate::entities::VpnStatus;
use crate::text::dec_str_of;
use crate::text::u64_to_string;

verus! {

/// The status transfer shape `d` renders status `s`: same state and
/// address, with the connect timestamp carried as its decimal
/// rendering.
pub open spec fn status_dto_represents(d: VpnStatusDto, s: VpnStatus) -> bool {
    &&& d.state@ == s@.state
    &&& d.ip_address@ == s@.ip_address
    &&& (d.connected_since is Some <==> s.spec_connected_since() is Some)
    &&& (d.connected_since matches Some(cs) ==> (s.spec_connected_since() matches Some(t) && cs@
        == dec_str_of(t as nat)))
}

/// The transfer shape `d` renders profile `v`.
pub open spec fn dto_represents(d: VpnDto, v: Vpn) -> bool {
    &&& d.id@ == v@.id
    &&& d.display_name@ == v@.display_name
    &&& d.config_path@ == v@.config_path
    &&& status_dto_represents(d.status, v.spec_status())
}

/// Maps profiles to and from their transfer shapes.
pub struct VpnMapper;

impl VpnMapper {
    /// The transfer shape of a connection state.
    pub fn connection_state_to_dto(state: &ConnectionState) -> (r: ConnectionStateDto)
        ensures
            r@ == state@,
    {
        match state {
            ConnectionState::Disconnected => ConnectionStateDto::Disconnected,
            ConnectionState::Connecting => ConnectionStateDto::Connecting,
            ConnectionState::Connected => ConnectionStateDto::Connected,
            ConnectionState::Disconnecting => ConnectionStateDto::Disconnecting,
            ConnectionState::Error(m) => ConnectionStateDto::Error(m.clone()),
        }
    }

    /// The connection state a transfer shape stands for.
    pub fn connection_state_from_dto(dto: &ConnectionStateDto) -> (r: ConnectionState)
        ensures
            r@ == dto@,
    {
        match dto {
            ConnectionStateDto::Disconnected => ConnectionState::Disconnected,
            ConnectionStateDto::Connecting => ConnectionState::Connecting,
            ConnectionStateDto::Connected => ConnectionState::Connected,
            ConnectionStateDto::Disconnecting => ConnectionState::Disconnecting,
            ConnectionStateDto::Error(m) => ConnectionState::Error(m.clone()),
        }
    }

    /// The transfer shape of a status, with the connect timestamp
    /// rendered in decimal seconds.
    pub fn status_to_dto(status: &VpnStatus) -> (r: VpnStatusDto)
        ensures
            status_dto_represents(r, *status),
    {
        let connected_since: Option<String> = match status.connected_since() {
            Some(t) => Some(u64_to_string(t)),
            None => None,
        };
        VpnStatusDto {
            state: Self::connection_state_to_dto(status.state()),
            ip_address: status.ip_address().to_owned(),
            connected_since,
        }
    }

    /// The status a transfer shape stands for.  The carried timestamp
    /// rendering is not read back: the status is rebuilt, so a fresh
    /// timestamp is taken exactly when the state is `Connected`.
    pub fn status_from_dto(dto: &VpnStatusDto) -> (r: VpnStatus)
        ensures
            r@.state == dto.state@,
            r@.ip_address == dto.ip_address@,
            r.spec_connected_since() is Some <==> dto.state@ is Connected,
    {
        let state = Self::connection_state_from_dto(&dto.state);
        let r = VpnStatus::new(state, dto.ip_address.clone());
        r
    }

    /// The transfer shape of a profile.
    pub fn to_dto(vpn: &Vpn) -> (r: VpnDto)
        ensures
            dto_represents(r, *vpn),
    {
        VpnDto {
            id: vpn.id().to_owned(),
            display_name: vpn.display_name().to_owned(),
            config_path: vpn.config_path().to_owned(),
            status: Self::status_to_dto(vpn.status()),
        }
    }

    /// The profile a transfer shape stands for.
    pub fn from_dto(dto: &VpnDto) -> (r: Vpn)
        ensures
            r@.id == dto.id@,
            r@.display_name == dto.display_name@,
            r@.config_path == dto.config_path@,
            r@.status.state == dto.status.state@,
            r@.status.ip_address == dto.status.ip_address@,
            r.spec_status().spec_connected_since() is Some <==> dto.status.state@ is Connected,
    {
        let mut vpn = Vpn::new(
            dto.id.clone(),
            dto.display_name.clone(),
            dto.config_path.clone(),
        );
        let status = Self::status_from_dto(&dto.status);
        vpn.update_status(status);
        vpn
    }

    /// The transfer shapes of a whole listing, in order.
    pub fn to_dto_list(vpns: &Vec<Vpn>) -> (r: Vec<VpnDto>)
        ensures
            r@.len() == vpns@.len(),
            forall|i: int| 0 <= i < vpns@.len() ==> dto_represents(#[trigger] r@[i], vpns@[i]),
    {
        let mut r: Vec<VpnDto> = Vec::new();
        let mut i: usize = 0;
        while i < vpns.len()
            invariant
                i <= vpns@.len(),
                r@.len() == i,
                forall|k: int| 0 <= k < i ==> dto_represents(#[trigger] r@[k], vpns@[k]),
            decreases vpns@.len() - i,
        {
            r.push(Self::to_dto(&vpns[i]));
            i = i + 1;
        }
        r
    }
}

} // verus!
