//! The "any port" negotiation as a state machine.
//!
//! A negotiation is in one of five phases. In three of them a request is
//! pending; the caller sends it and hands the answer to [`AddAnyPort::advance`],
//! which moves to the next phase. The two others are final. Nothing here
//! performs a request: the machine only decides which one comes next.

use vstd::prelude::*;
use crate::errors::{
    any_port_error, convert_add_any_port_mapping_error, convert_add_random_port_mapping_error,
    convert_add_same_port_mapping_error, random_port_error, same_port_error, AddAnyPortError,
};
use crate::request::{Mapping, Reply, Request};

verus! {

/// How many explicit requests with a random external port a negotiation makes
/// at most.
pub const MAX_RANDOM_ATTEMPTS: u8 = 20;

/// Where a negotiation stands.
#[derive(Clone, Debug, PartialEq, Eq)]
pub enum Phase {
    /// An "add any port" request that proposes `candidate` is pending.
    TryAnyPort { candidate: u16 },
    /// The `attempt`-th explicit request with a random external port,
    /// `candidate`, is pending.
    TryExplicitLoop { attempt: u8, candidate: u16 },
    /// An explicit request with the local port as external port is pending.
    TrySamePort,
    /// The device maps this external port.
    Done(u16),
    /// The negotiation failed.
    Failed(AddAnyPortError),
}

/// A negotiation for a mapping at whatever external port can be had.
#[derive(Clone, Debug, PartialEq, Eq)]
pub struct AddAnyPort {
    pub mapping: Mapping,
    pub phase: Phase,
}

impl AddAnyPort {
    /// The negotiation before its first request: failed where the local port
    /// is zero, else about to propose `candidate` to the device.
    pub open spec fn spec_start(mapping: Mapping, candidate: u16) -> AddAnyPort {
        AddAnyPort {
            mapping,
            phase: if mapping.local_addr.port == 0 {
                Phase::Failed(AddAnyPortError::InternalPortZeroInvalid)
            } else {
                Phase::TryAnyPort { candidate }
            },
        }
    }

    /// The request that is to be sent now, if any.
    pub open spec fn spec_pending(self) -> Option<Request> {
        match self.phase {
            Phase::TryAnyPort { candidate } => Some(
                Request::AddAnyPortMapping { external_port: candidate, mapping: self.mapping },
            ),
            Phase::TryExplicitLoop { attempt, candidate } => Some(
                Request::AddPortMapping { external_port: candidate, mapping: self.mapping },
            ),
            Phase::TrySamePort => Some(
                Request::AddPortMapping {
                    external_port: self.mapping.local_addr.port,
                    mapping: self.mapping,
                },
            ),
            Phase::Done(_) => None,
            Phase::Failed(_) => None,
        }
    }

    /// Whether the negotiation is in order: a pending request names no
    /// external port of zero, and a random attempt is one of the twenty.
    pub open spec fn wf(self) -> bool {
        match self.phase {
            Phase::TryAnyPort { candidate } => candidate != 0 && self.mapping.local_addr.port != 0,
            Phase::TryExplicitLoop { attempt, candidate } => {
                &&& candidate != 0
                &&& self.mapping.local_addr.port != 0
                &&& 1 <= attempt <= MAX_RANDOM_ATTEMPTS
            },
            Phase::TrySamePort => self.mapping.local_addr.port != 0,
            Phase::Done(_) => true,
            Phase::Failed(_) => true,
        }
    }

    /// Whether the negotiation is over.
    pub open spec fn finished(self) -> bool {
        self.phase is Done || self.phase is Failed
    }

    /// What the negotiation came to, once it is over.
    pub open spec fn spec_outcome(self) -> Option<Result<u16, AddAnyPortError>> {
        match self.phase {
            Phase::Done(port) => Some(Ok(port)),
            Phase::Failed(err) => Some(Err(err)),
            _ => None,
        }
    }

    /// Whether `reply` is an answer to the pending request. The port that a
    /// device reserved answers only an "add any port" request, a bare
    /// acceptance only an explicit one; a failure answers either.
    pub open spec fn answered_by(self, reply: Reply) -> bool {
        match self.phase {
            Phase::TryAnyPort { .. } => !(reply is Added),
            Phase::TryExplicitLoop { .. } => !(reply is Reserved),
            Phase::TrySamePort => !(reply is Reserved),
            Phase::Done(_) => false,
            Phase::Failed(_) => false,
        }
    }

    /// The phase after `reply` has come in, where `candidate` is the external
    /// port to propose should another random one be needed. A reply that
    /// does not answer the pending request changes nothing.
    pub open spec fn next_phase(self, reply: Reply, candidate: u16) -> Phase {
        match self.phase {
            Phase::TryAnyPort { .. } => match reply {
                Reply::Reserved(port) => Phase::Done(port),
                Reply::Added => self.phase,
                Reply::Failed(err) => match any_port_error(err) {
                    None => Phase::TryExplicitLoop { attempt: 1, candidate },
                    Some(e) => Phase::Failed(e),
                },
            },
            Phase::TryExplicitLoop { attempt, candidate: tried } => match reply {
                Reply::Reserved(_) => self.phase,
                Reply::Added => Phase::Done(tried),
                Reply::Failed(err) => match random_port_error(err) {
                    None => Phase::TrySamePort,
                    Some(AddAnyPortError::NoPortsAvailable) => if attempt < MAX_RANDOM_ATTEMPTS {
                        Phase::TryExplicitLoop { attempt: (attempt + 1) as u8, candidate }
                    } else {
                        Phase::Failed(AddAnyPortError::NoPortsAvailable)
                    },
                    Some(e) => Phase::Failed(e),
                },
            },
            Phase::TrySamePort => match reply {
                Reply::Reserved(_) => self.phase,
                Reply::Added => Phase::Done(self.mapping.local_addr.port),
                Reply::Failed(err) => Phase::Failed(same_port_error(err)),
            },
            Phase::Done(_) => self.phase,
            Phase::Failed(_) => self.phase,
        }
    }

    /// The negotiation after `reply` has come in.
    pub open spec fn spec_advance(self, reply: Reply, candidate: u16) -> AddAnyPort {
        AddAnyPort { mapping: self.mapping, phase: self.next_phase(reply, candidate) }
    }

    /// How many requests the negotiation may still send, the pending one
    /// included: one "add any port" request, the random attempts that are
    /// left, and one request with the local port.
    pub open spec fn budget(self) -> nat {
        match self.phase {
            Phase::TryAnyPort { .. } => (MAX_RANDOM_ATTEMPTS + 2) as nat,
            Phase::TryExplicitLoop { attempt, .. } => if attempt <= MAX_RANDOM_ATTEMPTS {
                (MAX_RANDOM_ATTEMPTS + 2 - attempt) as nat
            } else {
                2
            },
            Phase::TrySamePort => 1,
            Phase::Done(_) => 0,
            Phase::Failed(_) => 0,
        }
    }

    /// Starts a negotiation. `candidate` is the external port that the first
    /// request proposes.
    pub fn start(mapping: Mapping, candidate: u16) -> (s: AddAnyPort)
        ensures
            s == AddAnyPort::spec_start(mapping, candidate),
            candidate != 0 ==> s.wf(),
    {
        let phase = if mapping.local_addr.port() == 0 {
            Phase::Failed(AddAnyPortError::InternalPortZeroInvalid)
        } else {
            Phase::TryAnyPort { candidate }
        };
        AddAnyPort { mapping, phase }
    }

    /// The request to send now; `None` once the negotiation is over.
    pub fn pending(&self) -> (r: Option<Request>)
        ensures
            r == self.spec_pending(),
            r is None <==> self.finished(),
            self.wf() && r is Some ==> r->Some_0.external_port() != Some(0u16),
    {
        match &self.phase {
            Phase::TryAnyPort { candidate } => Some(
                Request::AddAnyPortMapping {
                    external_port: *candidate,
                    mapping: self.mapping.duplicate(),
                },
            ),
            Phase::TryExplicitLoop { attempt: _, candidate } => Some(
                Request::AddPortMapping {
                    external_port: *candidate,
                    mapping: self.mapping.duplicate(),
                },
            ),
            Phase::TrySamePort => Some(
                Request::AddPortMapping {
                    external_port: self.mapping.local_addr.port(),
                    mapping: self.mapping.duplicate(),
                },
            ),
            Phase::Done(_) => None,
            Phase::Failed(_) => None,
        }
    }

    /// Whether the negotiation is over.
    pub fn is_finished(&self) -> (b: bool)
        ensures
            b == self.finished(),
    {
        match &self.phase {
            Phase::Done(_) => true,
            Phase::Failed(_) => true,
            _ => false,
        }
    }

    /// Takes in the answer to the pending request and moves on. `candidate`
    /// is a fresh random external port; it is used only where the next
    /// request is an explicit one for a random port.
    pub fn advance(self, reply: Reply, candidate: u16) -> (next: AddAnyPort)
        ensures
            next == self.spec_advance(reply, candidate),
            next.mapping == self.mapping,
            self.finished() ==> next == self,
            self.answered_by(reply) ==> next.budget() < self.budget(),
            self.wf() && candidate != 0 ==> next.wf(),
    {
        let AddAnyPort { mapping, phase } = self;
        let next = match phase {
            Phase::TryAnyPort { candidate: proposed } => match reply {
                Reply::Reserved(port) => Phase::Done(port),
                Reply::Added => Phase::TryAnyPort { candidate: proposed },
                Reply::Failed(err) => match convert_add_any_port_mapping_error(err) {
                    None => Phase::TryExplicitLoop { attempt: 1, candidate },
                    Some(e) => Phase::Failed(e),
                },
            },
            Phase::TryExplicitLoop { attempt, candidate: tried } => match reply {
                Reply::Reserved(_) => Phase::TryExplicitLoop { attempt, candidate: tried },
                Reply::Added => Phase::Done(tried),
                Reply::Failed(err) => match convert_add_random_port_mapping_error(err) {
                    None => Phase::TrySamePort,
                    Some(AddAnyPortError::NoPortsAvailable) => {
                        if attempt < MAX_RANDOM_ATTEMPTS {
                            Phase::TryExplicitLoop { attempt: attempt + 1, candidate }
                        } else {
                            Phase::Failed(AddAnyPortError::NoPortsAvailable)
                        }
                    },
                    Some(e) => Phase::Failed(e),
                },
            },
            Phase::TrySamePort => match reply {
                Reply::Reserved(_) => Phase::TrySamePort,
                Reply::Added => Phase::Done(mapping.local_addr.port()),
                Reply::Failed(err) => Phase::Failed(convert_add_same_port_mapping_error(err)),
            },
            Phase::Done(port) => Phase::Done(port),
            Phase::Failed(err) => Phase::Failed(err),
        };
        AddAnyPort { mapping, phase: next }
    }

    /// What the negotiation came to: the external port that the device maps,
    /// or the error; `None` while a request is pending.
    pub fn outcome(self) -> (r: Option<Result<u16, AddAnyPortError>>)
        ensures
            r == self.spec_outcome(),
            r is Some <==> self.finished(),
    {
        match self.phase {
            Phase::Done(port) => Some(Ok(port)),
            Phase::Failed(err) => Some(Err(err)),
            _ => None,
        }
    }
}

} // verus!
