//! Failures of a request, and how each operation classifies them.

use vstd::prelude::*;

verus! {

/// Fault code with which a device says that it does not know the action.
pub const INVALID_ACTION: u16 = 401;

/// Fault code with which a device says that the external port is already
/// mapped.
pub const CONFLICT_IN_MAPPING_ENTRY: u16 = 718;

/// Fault code with which a device says that it only maps an external port to
/// the same internal port.
pub const SAME_PORT_VALUES_REQUIRED: u16 = 724;

/// Why a request got no successful answer.
#[derive(Clone, Debug, PartialEq, Eq)]
pub enum RequestError {
    /// The request did not reach the device or no answer came back.
    Transport(String),
    /// An answer came back that could not be understood.
    InvalidResponse(String),
    /// The device answered with a fault: its code and its description.
    ErrorCode(u16, String),
}

/// What a failure means to the operations of this crate.
#[derive(Clone, Copy, Debug, PartialEq, Eq, Structural)]
pub enum FaultKind {
    /// The device does not implement the requested action.
    UnsupportedOperation,
    /// The device already has a mapping at the requested external port.
    PortConflict,
    /// The device insists on equal internal and external ports.
    SamePortValuesRequired,
    /// Anything else: a transport failure, an unreadable answer, another fault.
    Other,
}

/// An error of the "any port" negotiation.
#[derive(Clone, Debug, PartialEq, Eq)]
pub enum AddAnyPortError {
    /// The local endpoint's port is zero.
    InternalPortZeroInvalid,
    /// Every randomly chosen external port was already taken.
    NoPortsAvailable,
    /// The device wants equal ports, and the local port is taken externally.
    ExternalPortInUse,
    /// Any other failure, as the request reported it.
    RequestError(RequestError),
}

/// An error of an explicit port mapping.
#[derive(Clone, Debug, PartialEq, Eq)]
pub enum AddPortError {
    /// The local endpoint's port is zero.
    InternalPortZeroInvalid,
    /// The external port is zero.
    ExternalPortZeroInvalid,
    /// The device already has a mapping at the external port.
    PortInUse,
    /// The device insists on equal internal and external ports.
    SamePortValuesRequired,
    /// Any other failure, as the request reported it.
    RequestError(RequestError),
}

impl RequestError {
    pub open spec fn spec_kind(self) -> FaultKind {
        match self {
            RequestError::ErrorCode(code, _) => if code == INVALID_ACTION {
                FaultKind::UnsupportedOperation
            } else if code == CONFLICT_IN_MAPPING_ENTRY {
                FaultKind::PortConflict
            } else if code == SAME_PORT_VALUES_REQUIRED {
                FaultKind::SamePortValuesRequired
            } else {
                FaultKind::Other
            },
            _ => FaultKind::Other,
        }
    }

    /// The kind of this failure. Only a device fault with one of the three
    /// codes above has a kind of its own.
    pub fn kind(&self) -> (k: FaultKind)
        ensures
            k == self.spec_kind(),
    {
        match self {
            RequestError::ErrorCode(code, _) => {
                if *code == INVALID_ACTION {
                    FaultKind::UnsupportedOperation
                } else if *code == CONFLICT_IN_MAPPING_ENTRY {
                    FaultKind::PortConflict
                } else if *code == SAME_PORT_VALUES_REQUIRED {
                    FaultKind::SamePortValuesRequired
                } else {
                    FaultKind::Other
                }
            },
            _ => FaultKind::Other,
        }
    }
}

/// What a failed "add any port" request means: `None` where the device does
/// not know the action, so that the explicit request is to be tried; else
/// the failure itself, unchanged.
pub open spec fn any_port_error(err: RequestError) -> Option<AddAnyPortError> {
    match err.spec_kind() {
        FaultKind::UnsupportedOperation => None,
        _ => Some(AddAnyPortError::RequestError(err)),
    }
}

/// What a failed explicit request for a random external port means: `None`
/// where the device insists on equal ports, so that the local port is to be
/// tried; "no ports available" where the port was taken, so that another may
/// be tried; else the failure itself, unchanged.
pub open spec fn random_port_error(err: RequestError) -> Option<AddAnyPortError> {
    match err.spec_kind() {
        FaultKind::SamePortValuesRequired => None,
        FaultKind::PortConflict => Some(AddAnyPortError::NoPortsAvailable),
        _ => Some(AddAnyPortError::RequestError(err)),
    }
}

/// What a failed explicit request for the local port means: "external port in
/// use" where the port was taken; else the failure itself, unchanged.
pub open spec fn same_port_error(err: RequestError) -> AddAnyPortError {
    match err.spec_kind() {
        FaultKind::PortConflict => AddAnyPortError::ExternalPortInUse,
        _ => AddAnyPortError::RequestError(err),
    }
}

/// What a failed explicit request means to the caller who chose the port.
pub open spec fn add_port_error(err: RequestError) -> AddPortError {
    match err.spec_kind() {
        FaultKind::PortConflict => AddPortError::PortInUse,
        FaultKind::SamePortValuesRequired => AddPortError::SamePortValuesRequired,
        _ => AddPortError::RequestError(err),
    }
}

/// Classifies the failure of an "add any port" request.
pub fn convert_add_any_port_mapping_error(err: RequestError) -> (r: Option<AddAnyPortError>)
    ensures
        r == any_port_error(err),
{
    match err.kind() {
        FaultKind::UnsupportedOperation => None,
        _ => Some(AddAnyPortError::RequestError(err)),
    }
}

/// Classifies the failure of an explicit request for a random external port.
pub fn convert_add_random_port_mapping_error(err: RequestError) -> (r: Option<AddAnyPortError>)
    ensures
        r == random_port_error(err),
{
    match err.kind() {
        FaultKind::SamePortValuesRequired => None,
        FaultKind::PortConflict => Some(AddAnyPortError::NoPortsAvailable),
        _ => Some(AddAnyPortError::RequestError(err)),
    }
}

/// Classifies the failure of an explicit request for the local port.
pub fn convert_add_same_port_mapping_error(err: RequestError) -> (r: AddAnyPortError)
    ensures
        r == same_port_error(err),
{
    match err.kind() {
        FaultKind::PortConflict => AddAnyPortError::ExternalPortInUse,
        _ => AddAnyPortError::RequestError(err),
    }
}

/// Classifies the failure of an explicit request whose port the caller chose.
pub fn convert_add_port_error(err: RequestError) -> (r: AddPortError)
    ensures
        r == add_port_error(err),
{
    match err.kind() {
        FaultKind::PortConflict => AddPortError::PortInUse,
        FaultKind::SamePortValuesRequired => AddPortError::SamePortValuesRequired,
        _ => AddPortError::RequestError(err),
    }
}

} // verus!
