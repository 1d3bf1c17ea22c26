//! Whole negotiations: what a negotiation sends and where it ends when the
//! device's answers come in one after the other, and the laws that hold of
//! every such course.

use vstd::prelude::*;
use crate::errors::{same_port_error, AddAnyPortError, FaultKind};
use crate::negotiation::{AddAnyPort, Phase, MAX_RANDOM_ATTEMPTS};
use crate::request::{Mapping, Reply, Request};

verus! {

/// A course of answers: each reply comes with the fresh random port that the
/// caller has ready when it arrives.
pub type Script = Seq<(Reply, u16)>;

/// Where the negotiation `s` stands after the replies of `script`.
pub open spec fn run(s: AddAnyPort, script: Script) -> AddAnyPort
    decreases script.len(),
{
    if script.len() == 0 {
        s
    } else {
        run(s.spec_advance(script[0].0, script[0].1), script.drop_first())
    }
}

/// The requests that were sent to obtain the replies of `script`: before
/// each reply the pending one. Once the negotiation is over nothing is sent,
/// whatever the script still holds.
pub open spec fn sent(s: AddAnyPort, script: Script) -> Seq<Request>
    decreases script.len(),
{
    if script.len() == 0 {
        Seq::empty()
    } else {
        match s.spec_pending() {
            None => Seq::empty(),
            Some(request) => seq![request] + sent(
                s.spec_advance(script[0].0, script[0].1),
                script.drop_first(),
            ),
        }
    }
}

/// Whether each reply of `script` answers the request that was pending when
/// it came.
pub open spec fn coherent(s: AddAnyPort, script: Script) -> bool
    decreases script.len(),
{
    if script.len() == 0 || s.finished() {
        true
    } else {
        s.answered_by(script[0].0) && coherent(
            s.spec_advance(script[0].0, script[0].1),
            script.drop_first(),
        )
    }
}

/// Whether `reply` is a failure of the given kind.
pub open spec fn fails_with(reply: Reply, kind: FaultKind) -> bool {
    match reply {
        Reply::Failed(err) => err.spec_kind() == kind,
        _ => false,
    }
}

/// Plays a negotiation against a prepared course of answers, as a device
/// would give them: sends each pending request, takes the next reply of
/// `script` for its answer, and stops when the negotiation is over or the
/// script is used up. Returns where the negotiation then stands and the
/// requests that were sent, in order.
pub fn simulate(start: AddAnyPort, script: Vec<(Reply, u16)>) -> (r: (AddAnyPort, Vec<Request>))
    ensures
        r.0 == run(start, script@),
        r.1@ == sent(start, script@),
{
    let mut state = start;
    let mut rest = script;
    let mut requests: Vec<Request> = Vec::new();
    while rest.len() > 0 && !state.is_finished()
        invariant
            run(state, rest@) == run(start, script@),
            requests@ + sent(state, rest@) == sent(start, script@),
        decreases rest.len(),
    {
        let ghost before = rest@;
        let ghost sent_before = requests@;
        let request = state.pending().unwrap();
        let (reply, candidate) = rest.remove(0);
        requests.push(request);
        state = state.advance(reply, candidate);
        proof {
            assert(rest@ =~= before.drop_first());
            assert(requests@ + sent(state, rest@) =~= sent_before + (seq![request] + sent(
                state,
                rest@,
            )));
        }
    }
    proof {
        if rest.len() > 0 {
            law_finished_is_final(state, rest@);
        }
        assert(requests@ + Seq::<Request>::empty() =~= requests@);
    }
    (state, requests)
}

/// A negotiation that is over stays as it is and sends nothing more.
pub proof fn law_finished_is_final(s: AddAnyPort, script: Script)
    requires
        s.finished(),
    ensures
        run(s, script) == s,
        sent(s, script) == Seq::<Request>::empty(),
    decreases script.len(),
{
    if script.len() > 0 {
        assert(s.spec_advance(script[0].0, script[0].1) == s);
        law_finished_is_final(s, script.drop_first());
    }
}

/// With a local port of zero the negotiation fails at once with "internal
/// port zero" and never sends a request.
pub proof fn law_zero_local_port_sends_nothing(mapping: Mapping, candidate: u16, script: Script)
    requires
        mapping.local_addr.port == 0,
    ensures
        AddAnyPort::spec_start(mapping, candidate).spec_pending() is None,
        run(AddAnyPort::spec_start(mapping, candidate), script).spec_outcome() == Some(
            Err::<u16, AddAnyPortError>(AddAnyPortError::InternalPortZeroInvalid),
        ),
        sent(AddAnyPort::spec_start(mapping, candidate), script) == Seq::<Request>::empty(),
{
    law_finished_is_final(AddAnyPort::spec_start(mapping, candidate), script);
}

/// Where the device answers the first request with a port, that port is the
/// outcome, whether or not it is the one proposed, and the first request is
/// the only one sent.
pub proof fn law_reserved_port_is_returned(
    mapping: Mapping,
    candidate: u16,
    script: Script,
    port: u16,
)
    requires
        mapping.local_addr.port != 0,
        script.len() >= 1,
        script[0].0 == Reply::Reserved(port),
    ensures
        run(AddAnyPort::spec_start(mapping, candidate), script).spec_outcome() == Some(
            Ok::<u16, AddAnyPortError>(port),
        ),
        sent(AddAnyPort::spec_start(mapping, candidate), script) == seq![
            Request::AddAnyPortMapping { external_port: candidate, mapping },
        ],
{
    let s = AddAnyPort::spec_start(mapping, candidate);
    let t = s.spec_advance(script[0].0, script[0].1);
    law_finished_is_final(t, script.drop_first());
    assert(sent(s, script) =~= seq![
        Request::AddAnyPortMapping { external_port: candidate, mapping },
    ]);
}

/// Where the first request fails with anything but "unsupported operation",
/// that failure is the outcome, unchanged, and nothing more is sent.
pub proof fn law_first_failure_is_final(mapping: Mapping, candidate: u16, script: Script)
    requires
        mapping.local_addr.port != 0,
        script.len() >= 1,
        script[0].0 is Failed,
        !fails_with(script[0].0, FaultKind::UnsupportedOperation),
    ensures
        run(AddAnyPort::spec_start(mapping, candidate), script).spec_outcome() == Some(
            Err::<u16, AddAnyPortError>(AddAnyPortError::RequestError(script[0].0->Failed_0)),
        ),
        sent(AddAnyPort::spec_start(mapping, candidate), script) == seq![
            Request::AddAnyPortMapping { external_port: candidate, mapping },
        ],
{
    let s = AddAnyPort::spec_start(mapping, candidate);
    let t = s.spec_advance(script[0].0, script[0].1);
    law_finished_is_final(t, script.drop_first());
    assert(sent(s, script) =~= seq![
        Request::AddAnyPortMapping { external_port: candidate, mapping },
    ]);
}

/// Once the "add any port" request is behind it, a negotiation sends explicit
/// requests only.
pub proof fn law_fallback_sends_explicit_requests(s: AddAnyPort, script: Script)
    requires
        !(s.phase is TryAnyPort),
    ensures
        forall|i: int| 0 <= i < sent(s, script).len() ==> (#[trigger] sent(s, script)[i]) is AddPortMapping,
    decreases script.len(),
{
    if script.len() > 0 && s.spec_pending() is Some {
        let t = s.spec_advance(script[0].0, script[0].1);
        law_fallback_sends_explicit_requests(t, script.drop_first());
    }
}

/// Where no random port that the caller has ready is zero, no request of the
/// negotiation names an external port of zero.
pub proof fn law_no_request_names_port_zero(s: AddAnyPort, script: Script)
    requires
        s.wf(),
        forall|i: int| 0 <= i < script.len() ==> (#[trigger] script[i]).1 != 0,
    ensures
        run(s, script).wf(),
        forall|i: int| 0 <= i < sent(s, script).len() ==> (#[trigger] sent(
            s,
            script,
        )[i]).external_port() != Some(0u16),
    decreases script.len(),
{
    if script.len() > 0 {
        let t = s.spec_advance(script[0].0, script[0].1);
        let rest = script.drop_first();
        assert forall|i: int| 0 <= i < rest.len() implies (#[trigger] rest[i]).1 != 0 by {
            assert(rest[i] == script[i + 1]);
        }
        law_no_request_names_port_zero(t, rest);
    }
}

/// A negotiation never sends more requests than its budget: whatever the
/// device answers, at most one "add any port" request, twenty explicit
/// requests for a random port and one for the local port.
pub proof fn law_requests_are_bounded(s: AddAnyPort, script: Script)
    requires
        coherent(s, script),
    ensures
        sent(s, script).len() <= s.budget(),
        s.budget() <= MAX_RANDOM_ATTEMPTS + 2,
    decreases script.len(),
{
    if script.len() > 0 && s.spec_pending() is Some {
        let t = s.spec_advance(script[0].0, script[0].1);
        law_requests_are_bounded(t, script.drop_first());
    }
}

/// A negotiation is over once it has had as many answers as its budget
/// allows requests: after twenty-two at the latest.
pub proof fn law_negotiation_ends(s: AddAnyPort, script: Script)
    requires
        coherent(s, script),
        script.len() >= s.budget(),
    ensures
        run(s, script).finished(),
    decreases script.len(),
{
    if s.finished() {
        law_finished_is_final(s, script);
    } else {
        let t = s.spec_advance(script[0].0, script[0].1);
        law_negotiation_ends(t, script.drop_first());
    }
}

/// Where the first request fails with "unsupported operation", the
/// negotiation goes on with the first explicit request for a random port, and
/// all that follows is explicit requests, at most twenty-one of them.
pub proof fn law_unsupported_falls_back(mapping: Mapping, candidate: u16, script: Script)
    requires
        mapping.local_addr.port != 0,
        script.len() >= 1,
        fails_with(script[0].0, FaultKind::UnsupportedOperation),
        coherent(AddAnyPort::spec_start(mapping, candidate), script),
    ensures
        run(AddAnyPort::spec_start(mapping, candidate), script.take(1)).phase == (
            Phase::TryExplicitLoop { attempt: 1, candidate: script[0].1 }),
        sent(AddAnyPort::spec_start(mapping, candidate), script).len() <= MAX_RANDOM_ATTEMPTS + 2,
        sent(AddAnyPort::spec_start(mapping, candidate), script)[0] == (
            Request::AddAnyPortMapping { external_port: candidate, mapping }),
        forall|i: int| 1 <= i < sent(AddAnyPort::spec_start(mapping, candidate), script).len() ==> (
            #[trigger] sent(AddAnyPort::spec_start(mapping, candidate), script)[i]) is AddPortMapping,
{
    let s = AddAnyPort::spec_start(mapping, candidate);
    let t = s.spec_advance(script[0].0, script[0].1);
    let rest = script.drop_first();
    let one = script.take(1);
    assert(one[0] == script[0]);
    assert(one.drop_first() =~= Seq::<(Reply, u16)>::empty());
    assert(run(t, one.drop_first()) == t);
    assert(run(s, one) == t);
    law_requests_are_bounded(s, script);
    law_fallback_sends_explicit_requests(t, rest);
    assert forall|i: int| 1 <= i < sent(s, script).len() implies (#[trigger] sent(s, script)[i]) is AddPortMapping by {
        assert(sent(s, script)[i] == sent(t, rest)[i - 1]);
    }
}

/// Where every explicit request for a random port meets a port conflict, the
/// negotiation gives up with "no ports available" after the twentieth, and
/// has sent one request for each attempt that was left, each for the random
/// port that was ready when it was due.
pub proof fn law_conflicts_exhaust_the_attempts(s: AddAnyPort, script: Script)
    requires
        s.phase is TryExplicitLoop,
        1 <= s.phase->attempt <= MAX_RANDOM_ATTEMPTS,
        script.len() >= MAX_RANDOM_ATTEMPTS + 1 - s.phase->attempt,
        forall|i: int| 0 <= i < MAX_RANDOM_ATTEMPTS + 1 - s.phase->attempt ==> fails_with(
            (#[trigger] script[i]).0,
            FaultKind::PortConflict,
        ),
    ensures
        run(s, script).spec_outcome() == Some(
            Err::<u16, AddAnyPortError>(AddAnyPortError::NoPortsAvailable),
        ),
        sent(s, script).len() == MAX_RANDOM_ATTEMPTS + 1 - s.phase->attempt,
        sent(s, script)[0] == (
            Request::AddPortMapping { external_port: s.phase->TryExplicitLoop_candidate, mapping: s.mapping }),
        forall|i: int| 1 <= i < sent(s, script).len() ==> #[trigger] sent(s, script)[i] == (
            Request::AddPortMapping { external_port: script[i - 1].1, mapping: s.mapping }),
    decreases MAX_RANDOM_ATTEMPTS - s.phase->attempt,
{
    let t = s.spec_advance(script[0].0, script[0].1);
    let rest = script.drop_first();
    assert(fails_with(script[0].0, FaultKind::PortConflict));
    if s.phase->attempt == MAX_RANDOM_ATTEMPTS {
        law_finished_is_final(t, rest);
        assert(sent(s, script) =~= seq![
            Request::AddPortMapping { external_port: s.phase->TryExplicitLoop_candidate, mapping: s.mapping },
        ]);
    } else {
        assert forall|i: int| 0 <= i < MAX_RANDOM_ATTEMPTS + 1 - t.phase->attempt implies fails_with(
            (#[trigger] rest[i]).0,
            FaultKind::PortConflict,
        ) by {
            assert(rest[i] == script[i + 1]);
        }
        law_conflicts_exhaust_the_attempts(t, rest);
        assert forall|i: int| 1 <= i < sent(s, script).len() implies #[trigger] sent(s, script)[i] == (
            Request::AddPortMapping { external_port: script[i - 1].1, mapping: s.mapping }) by {
            assert(sent(s, script)[i] == sent(t, rest)[i - 1]);
            if i >= 2 {
                assert(rest[i - 2] == script[i - 1]);
            }
        }
    }
}

/// Where the device does not know "add any port" and then meets each of
/// twenty explicit requests with a port conflict, the negotiation fails with
/// "no ports available" and has sent exactly those twenty-one requests.
pub proof fn law_exhaustion(mapping: Mapping, candidate: u16, script: Script)
    requires
        mapping.local_addr.port != 0,
        script.len() >= MAX_RANDOM_ATTEMPTS + 1,
        fails_with(script[0].0, FaultKind::UnsupportedOperation),
        forall|i: int| 1 <= i <= MAX_RANDOM_ATTEMPTS ==> fails_with(
            (#[trigger] script[i]).0,
            FaultKind::PortConflict,
        ),
    ensures
        run(AddAnyPort::spec_start(mapping, candidate), script).spec_outcome() == Some(
            Err::<u16, AddAnyPortError>(AddAnyPortError::NoPortsAvailable),
        ),
        sent(AddAnyPort::spec_start(mapping, candidate), script).len() == MAX_RANDOM_ATTEMPTS + 1,
        sent(AddAnyPort::spec_start(mapping, candidate), script)[0] == (
            Request::AddAnyPortMapping { external_port: candidate, mapping }),
        forall|i: int| 1 <= i <= MAX_RANDOM_ATTEMPTS ==> #[trigger] sent(
            AddAnyPort::spec_start(mapping, candidate),
            script,
        )[i] == (Request::AddPortMapping { external_port: script[i - 1].1, mapping }),
{
    let s = AddAnyPort::spec_start(mapping, candidate);
    let t = s.spec_advance(script[0].0, script[0].1);
    let rest = script.drop_first();
    assert forall|i: int| 0 <= i < MAX_RANDOM_ATTEMPTS + 1 - t.phase->attempt implies fails_with(
        (#[trigger] rest[i]).0,
        FaultKind::PortConflict,
    ) by {
        assert(rest[i] == script[i + 1]);
    }
    law_conflicts_exhaust_the_attempts(t, rest);
    assert forall|i: int| 1 <= i <= MAX_RANDOM_ATTEMPTS implies #[trigger] sent(s, script)[i] == (
        Request::AddPortMapping { external_port: script[i - 1].1, mapping }) by {
        assert(sent(s, script)[i] == sent(t, rest)[i - 1]);
        if i >= 2 {
            assert(rest[i - 2] == script[i - 1]);
        }
    }
}

/// Where an explicit request for a random port, whichever attempt it is,
/// fails with "same port values required", exactly one more request follows:
/// an explicit one with the local port as external port. Its answer ends the
/// negotiation: with the local port, or with the failure as the last attempt
/// classifies it.
pub proof fn law_same_port_fallback(s: AddAnyPort, script: Script)
    requires
        s.phase is TryExplicitLoop,
        script.len() >= 2,
        fails_with(script[0].0, FaultKind::SamePortValuesRequired),
        !(script[1].0 is Reserved),
    ensures
        run(s, script.take(1)).phase == Phase::TrySamePort,
        sent(s, script) == seq![
            Request::AddPortMapping { external_port: s.phase->TryExplicitLoop_candidate, mapping: s.mapping },
            Request::AddPortMapping { external_port: s.mapping.local_addr.port, mapping: s.mapping },
        ],
        run(s, script).spec_outcome() == Some(
            match script[1].0 {
                Reply::Failed(err) => Err::<u16, AddAnyPortError>(same_port_error(err)),
                _ => Ok::<u16, AddAnyPortError>(s.mapping.local_addr.port),
            },
        ),
{
    let t = s.spec_advance(script[0].0, script[0].1);
    let rest = script.drop_first();
    let u = t.spec_advance(rest[0].0, rest[0].1);
    let one = script.take(1);
    assert(one[0] == script[0]);
    assert(one.drop_first() =~= Seq::<(Reply, u16)>::empty());
    assert(run(t, one.drop_first()) == t);
    assert(run(s, one) == t);
    assert(rest[0] == script[1]);
    law_finished_is_final(u, rest.drop_first());
    assert(run(t, rest) == u);
    assert(sent(t, rest) =~= seq![
        Request::AddPortMapping { external_port: s.mapping.local_addr.port, mapping: s.mapping },
    ]);
    assert(sent(s, script) =~= seq![
        Request::AddPortMapping { external_port: s.phase->TryExplicitLoop_candidate, mapping: s.mapping },
        Request::AddPortMapping { external_port: s.mapping.local_addr.port, mapping: s.mapping },
    ]);
}

} // verus!
