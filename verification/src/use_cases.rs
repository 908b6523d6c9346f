//! The profile-level use cases: look a profile up, move it into the
//! transitional state a request implies, and store it back.  Each use
//! case works against any `VpnRepository`.

use vstd::prelude::*;
use vstd::string::StringExecFns;
use crate::entities::with_state;
use crate::entities::ConnectionState;
use crate::entities::StateView;
use crate::entities::Vpn;
use crate::entities::VpnStatus;
use crate::repository::find_vpn;
use crate::repository::spec_save;
use crate::repository::VpnRepository;

verus! {

/// Errors raised by the use cases.
#[derive(Debug, PartialEq, Eq)]
pub enum UseCaseError {
    VpnNotFound(String),
    RepositoryError(String),
    ConnectionError(String),
}

impl Clone for UseCaseError {
    fn clone(&self) -> (r: Self)
        ensures
            r == *self,
    {
        match self {
            UseCaseError::VpnNotFound(m) => UseCaseError::VpnNotFound(m.clone()),
            UseCaseError::RepositoryError(m) => UseCaseError::RepositoryError(m.clone()),
            UseCaseError::ConnectionError(m) => UseCaseError::ConnectionError(m.clone()),
        }
    }
}

impl UseCaseError {
    /// A human-readable description of the error.
    pub fn message(&self) -> (r: String)
        ensures
            self matches UseCaseError::VpnNotFound(m) ==> r@ == "VPN not found: "@ + m@,
            self matches UseCaseError::RepositoryError(m) ==> r@ == "Repository error: "@ + m@,
            self matches UseCaseError::ConnectionError(m) ==> r@ == "Connection error: "@ + m@,
    {
        match self {
            UseCaseError::VpnNotFound(m) => {
                let mut s = "VPN not found: ".to_owned();
                s.append(m.as_str());
                s
            },
            UseCaseError::RepositoryError(m) => {
                let mut s = "Repository error: ".to_owned();
                s.append(m.as_str());
                s
            },
            UseCaseError::ConnectionError(m) => {
                let mut s = "Connection error: ".to_owned();
                s.append(m.as_str());
                s
            },
        }
    }
}

/// Moves a profile to `Connecting` and stores it.
pub struct ConnectVpnUseCase<R: VpnRepository> {
    repository: R,
}

impl<R: VpnRepository> ConnectVpnUseCase<R> {
    pub closed spec fn spec_repository(&self) -> R {
        self.repository
    }

    pub fn new(repository: R) -> (r: Self)
        ensures
            r.spec_repository() == repository,
    {
        ConnectVpnUseCase { repository }
    }

    /// Looks the profile up, moves it to `Connecting` and stores it.
    /// Fails with `VpnNotFound` exactly when the lookup succeeds and
    /// reports no profile; a failure of the repository itself comes
    /// back as `RepositoryError`, and then the contents are unchanged.
    pub fn execute(&mut self, vpn_id: &str) -> (r: Result<Vpn, UseCaseError>)
        ensures
            r matches Ok(v) ==> ({
                &&& find_vpn(old(self).spec_repository().vpns(), vpn_id@) matches Some(f) && v@
                    == with_state(f, StateView::Connecting)
                &&& final(self).spec_repository().vpns() == spec_save(
                    old(self).spec_repository().vpns(),
                    v@,
                )
                &&& v.spec_status().spec_connected_since() is None
            }),
            r matches Err(e) ==> {
                &&& final(self).spec_repository().vpns() == old(self).spec_repository().vpns()
                &&& (e matches UseCaseError::VpnNotFound(m) ==> m@ == vpn_id@ && find_vpn(
                    old(self).spec_repository().vpns(),
                    vpn_id@,
                ) is None)
                &&& (e matches UseCaseError::VpnNotFound(_) || e
                    matches UseCaseError::RepositoryError(_))
            },
    {
        let found = match self.repository.find_by_id(vpn_id) {
            Ok(o) => o,
            Err(e) => {
                return Err(UseCaseError::RepositoryError(e));
            },
        };
        let mut vpn = match found {
            Some(v) => v,
            None => {
                return Err(UseCaseError::VpnNotFound(vpn_id.to_owned()));
            },
        };
        vpn.update_status(VpnStatus::new(ConnectionState::Connecting, String::new()));
        match self.repository.save(&vpn) {
            Ok(()) => Ok(vpn),
            Err(e) => Err(UseCaseError::RepositoryError(e)),
        }
    }
}

/// Moves a profile to `Disconnecting` and stores it.
pub struct DisconnectVpnUseCase<R: VpnRepository> {
    repository: R,
}

impl<R: VpnRepository> DisconnectVpnUseCase<R> {
    pub closed spec fn spec_repository(&self) -> R {
        self.repository
    }

    pub fn new(repository: R) -> (r: Self)
        ensures
            r.spec_repository() == repository,
    {
        DisconnectVpnUseCase { repository }
    }

    /// Looks the profile up, moves it to `Disconnecting` and stores
    /// it, with the same failure behaviour as the connect use case.
    pub fn execute(&mut self, vpn_id: &str) -> (r: Result<Vpn, UseCaseError>)
        ensures
            r matches Ok(v) ==> ({
                &&& find_vpn(old(self).spec_repository().vpns(), vpn_id@) matches Some(f) && v@
                    == with_state(f, StateView::Disconnecting)
                &&& final(self).spec_repository().vpns() == spec_save(
                    old(self).spec_repository().vpns(),
                    v@,
                )
                &&& v.spec_status().spec_connected_since() is None
            }),
            r matches Err(e) ==> {
                &&& final(self).spec_repository().vpns() == old(self).spec_repository().vpns()
                &&& (e matches UseCaseError::VpnNotFound(m) ==> m@ == vpn_id@ && find_vpn(
                    old(self).spec_repository().vpns(),
                    vpn_id@,
                ) is None)
                &&& (e matches UseCaseError::VpnNotFound(_) || e
                    matches UseCaseError::RepositoryError(_))
            },
    {
        let found = match self.repository.find_by_id(vpn_id) {
            Ok(o) => o,
            Err(e) => {
                return Err(UseCaseError::RepositoryError(e));
            },
        };
        let mut vpn = match found {
            Some(v) => v,
            None => {
                return Err(UseCaseError::VpnNotFound(vpn_id.to_owned()));
            },
        };
        vpn.update_status(VpnStatus::new(ConnectionState::Disconnecting, String::new()));
        match self.repository.save(&vpn) {
            Ok(()) => Ok(vpn),
            Err(e) => Err(UseCaseError::RepositoryError(e)),
        }
    }
}

/// Lists all stored profiles.
pub struct ListVpnsUseCase<R: VpnRepository> {
    repository: R,
}

impl<R: VpnRepository> ListVpnsUseCase<R> {
    pub closed spec fn spec_repository(&self) -> R {
        self.repository
    }

    pub fn new(repository: R) -> (r: Self)
        ensures
            r.spec_repository() == repository,
    {
        ListVpnsUseCase { repository }
    }

    /// All stored profiles, in listing order.
    pub fn execute(&self) -> (r: Result<Vec<Vpn>, UseCaseError>)
        ensures
            r matches Ok(vs) ==> vs.deep_view() == self.spec_repository().vpns(),
            r matches Err(e) ==> e matches UseCaseError::RepositoryError(_),
    {
        match self.repository.list_all() {
            Ok(vs) => Ok(vs),
            Err(e) => Err(UseCaseError::RepositoryError(e)),
        }
    }
}

} // verus!
