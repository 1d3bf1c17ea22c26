//! The requests that the operations issue, and the answers they take.

use vstd::prelude::*;
use crate::address::{PortMappingProtocol, SocketAddrV4};
use crate::errors::RequestError;

verus! {

/// What a port mapping is asked to be, apart from its external port.
#[derive(Clone, Debug, PartialEq, Eq)]
pub struct Mapping {
    pub protocol: PortMappingProtocol,
    /// Where the traffic is forwarded to.
    pub local_addr: SocketAddrV4,
    /// In seconds; zero asks for a mapping that does not expire.
    pub lease_duration: u32,
    pub description: String,
}

/// One control request to the device.
#[derive(Clone, Debug, PartialEq, Eq)]
pub enum Request {
    /// Asks for the device's public address.
    GetExternalIp,
    /// Asks for a mapping at the proposed external port or at another that
    /// the device picks.
    AddAnyPortMapping { external_port: u16, mapping: Mapping },
    /// Asks for a mapping at exactly this external port.
    AddPortMapping { external_port: u16, mapping: Mapping },
    /// Asks the device to drop the mapping at this external port.
    DeletePortMapping { protocol: PortMappingProtocol, external_port: u16 },
}

/// The answer to a request for a mapping.
#[derive(Clone, Debug, PartialEq, Eq)]
pub enum Reply {
    /// The device answered an "add any port" request with the port it
    /// reserved.
    Reserved(u16),
    /// The device accepted an explicit request.
    Added,
    /// The request failed.
    Failed(RequestError),
}

impl Request {
    /// The external port that the request names, if it names one.
    pub open spec fn external_port(self) -> Option<u16> {
        match self {
            Request::GetExternalIp => None,
            Request::AddAnyPortMapping { external_port, .. } => Some(external_port),
            Request::AddPortMapping { external_port, .. } => Some(external_port),
            Request::DeletePortMapping { external_port, .. } => Some(external_port),
        }
    }
}

impl Request {
    /// The name of the element with which the device answers this request
    /// when it has carried it out; any other answer is a failure.
    pub open spec fn spec_response_element(self) -> Seq<char> {
        match self {
            Request::GetExternalIp => "GetExternalIPAddressResponse"@,
            Request::AddAnyPortMapping { .. } => "AddAnyPortMappingResponse"@,
            Request::AddPortMapping { .. } => "AddPortMappingResponse"@,
            Request::DeletePortMapping { .. } => "DeletePortMappingResponse"@,
        }
    }

    /// The name of the element with which the device answers this request
    /// when it has carried it out.
    pub fn response_element(&self) -> (name: &'static str)
        ensures
            name@ == self.spec_response_element(),
    {
        match self {
            Request::GetExternalIp => "GetExternalIPAddressResponse",
            Request::AddAnyPortMapping { .. } => "AddAnyPortMappingResponse",
            Request::AddPortMapping { .. } => "AddPortMappingResponse",
            Request::DeletePortMapping { .. } => "DeletePortMappingResponse",
        }
    }
}

impl Mapping {
    /// Whether this mapping asks for exactly what the arguments say.
    pub open spec fn describes(
        self,
        protocol: PortMappingProtocol,
        local_addr: SocketAddrV4,
        lease_duration: u32,
        description: Seq<char>,
    ) -> bool {
        &&& self.protocol == protocol
        &&& self.local_addr == local_addr
        &&& self.lease_duration == lease_duration
        &&& self.description@ == description
    }

    pub fn new(
        protocol: PortMappingProtocol,
        local_addr: SocketAddrV4,
        lease_duration: u32,
        description: &str,
    ) -> (m: Mapping)
        ensures
            m.describes(protocol, local_addr, lease_duration, description@),
    {
        Mapping { protocol, local_addr, lease_duration, description: description.to_owned() }
    }

    /// A copy of this mapping.
    pub fn duplicate(&self) -> (m: Mapping)
        ensures
            m == *self,
    {
        Mapping {
            protocol: self.protocol,
            local_addr: self.local_addr,
            lease_duration: self.lease_duration,
            description: self.description.clone(),
        }
    }
}

} // verus!
