//! Per-request state: one `RequestUnit` per requested resource, owned by
//! the stream task that drives it, with its outcome and byte count.

use vstd::prelude::*;

use crate::batch::ConnectionGroup;
use crate::resource::{Resource, ResourceView};
use crate::wire::{spec_parse_response, parse_response, ResponseParse, ResponseParseView};

verus! {

/// Why a whole connection-group failed to come up.
#[derive(Clone, Copy, Debug, PartialEq, Eq)]
pub enum ConnectCause {
    /// The target address could not be resolved.
    AddressResolution,
    /// The transport could not connect.
    TransportConnect,
    /// The handshake failed (certificate, version or cipher mismatch).
    HandshakeFailed,
    /// The early-data attempt was rejected or could not start.
    EarlyDataRejected,
}

/// Why one stream's exchange failed.
#[derive(Clone, Copy, Debug, PartialEq, Eq)]
pub enum StreamCause {
    /// The peer reset the stream.
    StreamReset,
    /// The response did not parse.
    MalformedResponse,
    /// Reading or persisting the body failed.
    IoFailure,
    /// The peer answered that the resource does not exist.
    ResourceMissing,
}

/// The cause a request unit failed with: its group's connection failed, or
/// its own stream did.
#[derive(Clone, Copy, Debug, PartialEq, Eq)]
pub enum FailureCause {
    Connect(ConnectCause),
    Stream(StreamCause),
}

/// Where one request unit stands.
#[derive(Clone, Copy, Debug, PartialEq, Eq)]
pub enum UnitStatus {
    /// No stream has been opened for it yet.
    Pending,
    /// Its stream is open and the exchange is running.
    InFlight,
    /// The body was received and persisted.
    Succeeded,
    /// The exchange failed; siblings are unaffected.
    Failed(FailureCause),
}

/// One requested resource together with its outcome.
#[derive(Debug)]
pub struct RequestUnit {
    /// The resource this unit fetches.
    pub resource: Resource,
    /// Where the exchange stands.
    pub status: UnitStatus,
    /// Bytes of body received so far.
    pub bytes_transferred: u64,
}

/// The mathematical value of a request unit.
pub struct RequestUnitView {
    pub resource: ResourceView,
    pub status: UnitStatus,
    pub bytes_transferred: u64,
}

impl View for RequestUnit {
    type V = RequestUnitView;

    open spec fn view(&self) -> RequestUnitView {
        RequestUnitView {
            resource: self.resource@,
            status: self.status,
            bytes_transferred: self.bytes_transferred,
        }
    }
}

/// A unit that has not run yet carries no bytes.
pub open spec fn unit_wf(u: RequestUnitView) -> bool {
    (u.status is Pending || u.status is InFlight) ==> u.bytes_transferred == 0
}

impl RequestUnit {
    /// A fresh unit for a resource: pending, nothing transferred.
    pub fn new(resource: Resource) -> (u: RequestUnit)
        ensures
            u@.resource == resource@,
            u@.status is Pending,
            u@.bytes_transferred == 0,
            unit_wf(u@),
    {
        RequestUnit { resource, status: UnitStatus::Pending, bytes_transferred: 0 }
    }

    /// Marks the unit in flight: its stream has been opened.
    pub fn start(&mut self)
        requires
            old(self)@.status is Pending,
            unit_wf(old(self)@),
        ensures
            final(self)@.status is InFlight,
            final(self)@.resource == old(self)@.resource,
            final(self)@.bytes_transferred == 0,
            unit_wf(final(self)@),
    {
        self.status = UnitStatus::InFlight;
    }

    /// Marks the unit succeeded with the number of body bytes received and
    /// persisted.
    pub fn complete(&mut self, bytes: u64)
        requires
            old(self)@.status is InFlight,
        ensures
            final(self)@.status is Succeeded,
            final(self)@.resource == old(self)@.resource,
            final(self)@.bytes_transferred == bytes,
    {
        self.status = UnitStatus::Succeeded;
        self.bytes_transferred = bytes;
    }

    /// Marks the unit failed with its cause.  A finished unit is never
    /// re-failed, and the byte count stays what the stream had transferred.
    pub fn fail(&mut self, cause: FailureCause)
        requires
            !(old(self)@.status is Succeeded),
        ensures
            final(self)@.status == UnitStatus::Failed(cause),
            final(self)@.resource == old(self)@.resource,
            final(self)@.bytes_transferred == old(self)@.bytes_transferred,
    {
        self.status = UnitStatus::Failed(cause);
    }
}

/// The outcome a received response decides for its unit: the body to
/// persist, or the stream-level cause of failure.
pub open spec fn spec_response_outcome(resp: Seq<u8>) -> Result<Seq<u8>, StreamCause> {
    match spec_parse_response(resp) {
        ResponseParseView::Body(b) => Ok(b),
        ResponseParseView::NotFound => Err(StreamCause::ResourceMissing),
        ResponseParseView::Malformed => Err(StreamCause::MalformedResponse),
    }
}

/// Decides what a received response means for its unit: a served body is
/// handed back for persisting, a not-found answer and a malformed response
/// each carry their own cause.
pub fn body_of_response(resp: &Vec<u8>) -> (r: Result<Vec<u8>, StreamCause>)
    ensures
        (match r {
            Ok(b) => spec_response_outcome(resp@) == Ok::<Seq<u8>, StreamCause>(b@),
            Err(c) => spec_response_outcome(resp@) == Err::<Seq<u8>, StreamCause>(c),
        }),
{
    match parse_response(resp) {
        ResponseParse::Body(b) => Ok(b),
        ResponseParse::NotFound => Err(StreamCause::ResourceMissing),
        ResponseParse::Malformed => Err(StreamCause::MalformedResponse),
    }
}

/// Records a received response on its in-flight unit: a served body marks
/// it succeeded with the body's byte count, anything else marks it failed
/// with the stream-level cause.  The body to persist is handed back; on
/// failure there is nothing to write.
pub fn record_response(u: &mut RequestUnit, resp: &Vec<u8>) -> (body: Option<Vec<u8>>)
    requires
        old(u)@.status is InFlight,
    ensures
        final(u)@.resource == old(u)@.resource,
        (match spec_response_outcome(resp@) {
            Ok(b) => {
                &&& final(u)@.status is Succeeded
                &&& final(u)@.bytes_transferred == b.len()
                &&& body matches Some(bv) && bv@ == b
            },
            Err(c) => {
                &&& final(u)@.status == UnitStatus::Failed(FailureCause::Stream(c))
                &&& body is None
            },
        }),
{
    match body_of_response(resp) {
        Ok(b) => {
            u.complete(b.len() as u64);
            Some(b)
        },
        Err(c) => {
            u.fail(FailureCause::Stream(c));
            None
        },
    }
}

/// The mathematical value of a unit list.
pub open spec fn units_view(us: Seq<RequestUnit>) -> Seq<RequestUnitView> {
    us.map_values(|u: RequestUnit| u@)
}

/// Builds the pending units of one connection-group, one per resource, in
/// the group's order.
pub fn units_for_group(group: &ConnectionGroup) -> (us: Vec<RequestUnit>)
    ensures
        us@.len() == group@.len(),
        forall|i: int|
            0 <= i < us@.len() ==> (#[trigger] us@[i]@.resource) == group@[i]
                && us@[i]@.status is Pending && us@[i]@.bytes_transferred == 0,
{
    let mut us: Vec<RequestUnit> = Vec::new();
    let mut i: usize = 0;
    while i < group.resources.len()
        invariant
            i <= group.resources@.len(),
            us@.len() == i,
            forall|j: int|
                0 <= j < i ==> (#[trigger] us@[j]@.resource) == group@[j]
                    && us@[j]@.status is Pending && us@[j]@.bytes_transferred == 0,
        decreases group.resources@.len() - i,
    {
        us.push(RequestUnit::new(group.resources[i].clone()));
        i = i + 1;
    }
    us
}

/// Marks every unit of a group failed with one connection-level cause.
/// The group had not opened any stream, so every unit was pending and no
/// byte had been transferred: nothing was written for this group, and no
/// partial file exists.
pub fn fail_group(units: &mut Vec<RequestUnit>, cause: ConnectCause)
    requires
        forall|i: int|
            0 <= i < old(units)@.len() ==> (#[trigger] old(units)@[i]@.status) is Pending
                && old(units)@[i]@.bytes_transferred == 0,
    ensures
        final(units)@.len() == old(units)@.len(),
        forall|i: int|
            0 <= i < final(units)@.len() ==> {
                &&& (#[trigger] final(units)@[i]@.status) == UnitStatus::Failed(
                    FailureCause::Connect(cause))
                &&& final(units)@[i]@.bytes_transferred == 0
                &&& final(units)@[i]@.resource == old(units)@[i]@.resource
            },
{
    let n = units.len();
    let mut i: usize = 0;
    while i < n
        invariant
            i <= n == units@.len(),
            units@.len() == old(units)@.len(),
            forall|j: int|
                i <= j < units@.len() ==> {
                    &&& (#[trigger] units@[j]@.status) is Pending
                    &&& units@[j]@.bytes_transferred == 0
                    &&& units@[j]@.resource == old(units)@[j]@.resource
                },
            forall|j: int|
                0 <= j < i ==> {
                    &&& (#[trigger] units@[j]@.status) == UnitStatus::Failed(
                        FailureCause::Connect(cause))
                    &&& units@[j]@.bytes_transferred == 0
                    &&& units@[j]@.resource == old(units)@[j]@.resource
                },
        decreases n - i,
    {
        let ghost prev = units@;
        proof {
            assert(units@[i as int]@.status is Pending);
        }
        let mut u = units.remove(i);
        u.fail(FailureCause::Connect(cause));
        units.insert(i, u);
        proof {
            assert(units@ =~= prev.update(i as int, u));
            assert(forall|j: int| 0 <= j < prev.len() && j != i ==> units@[j] == prev[j]);
            assert(units@[i as int] == u);
        }
        i = i + 1;
    }
}

} // verus!
