//! The handle of one gateway device and the operations it offers.
//!
//! An operation here does not talk to the device. It checks its arguments
//! and says which request is to be sent to [`Gateway::url`]; the answer is
//! classified by the functions of [`crate::errors`] and, for the "any port"
//! family, by the negotiation of [`crate::negotiation`].

use vstd::prelude::*;
use vstd::string::*;
use vstd::std_specs::cmp::PartialEqSpec;
use crate::address::{Ipv4Addr, PortMappingProtocol, SocketAddrV4};
use crate::errors::{AddAnyPortError, AddPortError, RequestError};
use crate::negotiation::{AddAnyPort, Phase};
use crate::render::{push_socket, socket_text};
use crate::request::{Mapping, Request};

verus! {

/// A gateway device: the socket address it listens on and the path of its
/// control endpoint. A handle holds no connection and no state; it can be
/// cloned and compared freely.
#[derive(Clone, Debug, Hash)]
pub struct Gateway {
    addr: SocketAddrV4,
    control_url: String,
}

/// What a handle stands for.
pub struct GatewayView {
    pub addr: SocketAddrV4,
    pub control_url: Seq<char>,
}

impl View for Gateway {
    type V = GatewayView;

    closed spec fn view(&self) -> GatewayView {
        GatewayView { addr: self.addr, control_url: self.control_url@ }
    }
}

/// The address of a device's control endpoint: the scheme, the socket
/// address, the control path.
pub open spec fn url_text(g: GatewayView) -> Seq<char> {
    "http://"@ + socket_text(g.addr) + g.control_url
}

/// A negotiation that has the device's public address at hand, for the
/// socket address that it ends with.
#[derive(Clone, Debug, PartialEq, Eq)]
pub struct AnyAddress {
    pub ip: Ipv4Addr,
    pub negotiation: AddAnyPort,
}

impl Gateway {
    /// A handle for the device at `addr` whose control endpoint is
    /// `control_url`.
    pub fn new(addr: SocketAddrV4, control_url: String) -> (g: Gateway)
        ensures
            g@ == (GatewayView { addr, control_url: control_url@ }),
    {
        Gateway { addr, control_url }
    }

    /// The device's socket address.
    pub fn addr(&self) -> (a: SocketAddrV4)
        ensures
            a == self@.addr,
    {
        self.addr
    }

    /// The path of the device's control endpoint.
    pub fn control_url(&self) -> (p: &str)
        ensures
            p@ == self@.control_url,
    {
        self.control_url.as_str()
    }

    /// The address to which this device's requests are sent.
    pub fn url(&self) -> (s: String)
        ensures
            s@ == url_text(self@),
    {
        let mut s = String::from_str("http://");
        push_socket(&mut s, self.addr);
        s.append(self.control_url.as_str());
        s
    }

    /// The request that asks the device for its public address.
    pub fn get_external_ip(&self) -> (r: Request)
        ensures
            r == Request::GetExternalIp,
    {
        Request::GetExternalIp
    }

    /// Begins the search for a public socket address, given what the query
    /// for the device's public address came to. Where the query failed, that
    /// failure is the result and no mapping is asked for. Where it gave an
    /// address, a negotiation for any external port starts, as
    /// [`Gateway::add_any_port`] starts it.
    pub fn get_any_address(
        &self,
        external_ip: Result<Ipv4Addr, RequestError>,
        protocol: PortMappingProtocol,
        local_addr: SocketAddrV4,
        lease_duration: u32,
        description: &str,
        candidate: u16,
    ) -> (r: Result<AnyAddress, AddAnyPortError>)
        ensures
            match external_ip {
                Err(err) => r == Err::<AnyAddress, AddAnyPortError>(
                    AddAnyPortError::RequestError(err),
                ),
                Ok(ip) => r is Ok && r->Ok_0.ip == ip && r->Ok_0.negotiation.mapping.describes(
                    protocol,
                    local_addr,
                    lease_duration,
                    description@,
                ) && r->Ok_0.negotiation == AddAnyPort::spec_start(
                    r->Ok_0.negotiation.mapping,
                    candidate,
                ),
            },
    {
        match external_ip {
            Err(err) => Err(AddAnyPortError::RequestError(err)),
            Ok(ip) => Ok(
                AnyAddress {
                    ip,
                    negotiation: self.add_any_port(
                        protocol,
                        local_addr,
                        lease_duration,
                        description,
                        candidate,
                    ),
                },
            ),
        }
    }

    /// Begins a negotiation for a mapping of any external port to
    /// `local_addr`. `candidate` is the random external port that the first
    /// request proposes. With a local port of zero the negotiation has
    /// failed before any request; else its first request is pending.
    pub fn add_any_port(
        &self,
        protocol: PortMappingProtocol,
        local_addr: SocketAddrV4,
        lease_duration: u32,
        description: &str,
        candidate: u16,
    ) -> (s: AddAnyPort)
        ensures
            s.mapping.describes(protocol, local_addr, lease_duration, description@),
            s == AddAnyPort::spec_start(s.mapping, candidate),
            local_addr.port == 0 ==> s.phase == Phase::Failed(
                AddAnyPortError::InternalPortZeroInvalid,
            ) && s.spec_pending() is None,
            local_addr.port != 0 ==> s.phase == (Phase::TryAnyPort { candidate }),
    {
        let mapping = Mapping::new(protocol, local_addr, lease_duration, description);
        AddAnyPort::start(mapping, candidate)
    }

    /// The request for a mapping of exactly `external_port` to `local_addr`,
    /// or the reason why none is sent: an external port of zero, else a
    /// local port of zero.
    pub fn add_port(
        &self,
        protocol: PortMappingProtocol,
        external_port: u16,
        local_addr: SocketAddrV4,
        lease_duration: u32,
        description: &str,
    ) -> (r: Result<Request, AddPortError>)
        ensures
            external_port == 0 ==> r == Err::<Request, AddPortError>(
                AddPortError::ExternalPortZeroInvalid,
            ),
            external_port != 0 && local_addr.port == 0 ==> r == Err::<Request, AddPortError>(
                AddPortError::InternalPortZeroInvalid,
            ),
            external_port != 0 && local_addr.port != 0 ==> r is Ok && r->Ok_0 is AddPortMapping
                && r->Ok_0->AddPortMapping_external_port == external_port
                && r->Ok_0->AddPortMapping_mapping.describes(
                protocol,
                local_addr,
                lease_duration,
                description@,
            ),
    {
        if external_port == 0 {
            return Err(AddPortError::ExternalPortZeroInvalid);
        }
        if local_addr.port() == 0 {
            return Err(AddPortError::InternalPortZeroInvalid);
        }
        let mapping = Mapping::new(protocol, local_addr, lease_duration, description);
        Ok(Request::AddPortMapping { external_port, mapping })
    }

    /// The request that asks the device to drop the mapping of
    /// `external_port`.
    pub fn remove_port(&self, protocol: PortMappingProtocol, external_port: u16) -> (r: Request)
        ensures
            r == (Request::DeletePortMapping { protocol, external_port }),
    {
        Request::DeletePortMapping { protocol, external_port }
    }
}

impl AnyAddress {
    /// What the search came to: the device's public address with the
    /// external port that the negotiation obtained, or the negotiation's
    /// error; `None` while a request is pending.
    pub fn address(self) -> (r: Option<Result<SocketAddrV4, AddAnyPortError>>)
        ensures
            r == match self.negotiation.spec_outcome() {
                None => None::<Result<SocketAddrV4, AddAnyPortError>>,
                Some(Ok(port)) => Some(
                    Ok::<SocketAddrV4, AddAnyPortError>(SocketAddrV4 { ip: self.ip, port }),
                ),
                Some(Err(err)) => Some(Err::<SocketAddrV4, AddAnyPortError>(err)),
            },
    {
        let ip = self.ip;
        match self.negotiation.outcome() {
            None => None,
            Some(Ok(port)) => Some(Ok(SocketAddrV4::new(ip, port))),
            Some(Err(err)) => Some(Err(err)),
        }
    }
}

impl PartialEq for Gateway {
    fn eq(&self, other: &Gateway) -> (r: bool) {
        self.addr == other.addr && self.control_url == other.control_url
    }
}

impl vstd::std_specs::cmp::PartialEqSpecImpl for Gateway {
    open spec fn obeys_eq_spec() -> bool {
        true
    }

    open spec fn eq_spec(&self, other: &Gateway) -> bool {
        self@ == other@
    }
}

impl Eq for Gateway {

}

/// Two handles with the same address and the same control path are equal and
/// render to the same address of the control endpoint; two that differ in
/// either are not equal.
pub proof fn law_equality_is_structural(g: Gateway, h: Gateway)
    ensures
        g@.addr == h@.addr && g@.control_url == h@.control_url ==> PartialEqSpec::eq_spec(&g, &h)
            && url_text(g@) == url_text(h@),
        g@.addr != h@.addr || g@.control_url != h@.control_url ==> !PartialEqSpec::eq_spec(&g, &h),
{
}

} // verus!
