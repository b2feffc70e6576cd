//! String properties of one device in a device set, fetched through the sized
//! query. A property that the device does not have is absent, not an error.

use vstd::prelude::*;
use crate::query::{
    next_buffer, next_stage, outcome, text_view, QueryAction, QueryError, QueryStage, Reply,
    SizedQuery,
};

verus! {

/// Status code with which the registry reports that a device has no value for
/// the property asked for.
pub const ERROR_INVALID_DATA: u32 = 13;

/// The string properties this crate reads from the device registry.
#[derive(Clone, Copy, Debug, PartialEq, Eq, Structural)]
pub enum PropertyKind {
    Description,
    DriverKey,
    HardwareId,
    Service,
    Class,
}

/// The registry's selector for each property.
pub open spec fn selector_spec(kind: PropertyKind) -> u32 {
    match kind {
        PropertyKind::Description => 0,
        PropertyKind::HardwareId => 1,
        PropertyKind::Service => 4,
        PropertyKind::Class => 7,
        PropertyKind::DriverKey => 9,
    }
}

impl PropertyKind {
    pub fn selector(&self) -> (r: u32)
        ensures
            r == selector_spec(*self),
    {
        match self {
            PropertyKind::Description => 0,
            PropertyKind::HardwareId => 1,
            PropertyKind::Service => 4,
            PropertyKind::Class => 7,
            PropertyKind::DriverKey => 9,
        }
    }
}

/// A query result seen as a property: the registry's "invalid data" status
/// means that the device lacks the property.
pub open spec fn presence_spec(r: Result<Seq<u16>, QueryError>) -> Result<Option<Seq<u16>>, QueryError> {
    match r {
        Ok(t) => Ok(Some(t)),
        Err(e) => if e == QueryError::Underlying(ERROR_INVALID_DATA) {
            Ok(None)
        } else {
            Err(e)
        },
    }
}

pub open spec fn property_view(p: Result<Option<Vec<u16>>, QueryError>) -> Result<Option<Seq<u16>>, QueryError> {
    match p {
        Ok(Some(t)) => Ok(Some(t@)),
        Ok(None) => Ok(None),
        Err(e) => Err(e),
    }
}

pub fn property_value(r: Result<Vec<u16>, QueryError>) -> (p: Result<Option<Vec<u16>>, QueryError>)
    ensures
        property_view(p) == presence_spec(text_view(r)),
{
    match r {
        Ok(t) => Ok(Some(t)),
        Err(e) => if e == QueryError::Underlying(ERROR_INVALID_DATA) {
            Ok(None)
        } else {
            Err(e)
        },
    }
}

/// What the caller of a property fetch does next.
#[derive(Debug)]
pub enum PropertyStep {
    /// Call the registry again, with the (grown) buffer.
    CallAgain,
    /// The fetch is over: the text, `None` where the device lacks the
    /// property, or the error.
    Finished(Result<Option<Vec<u16>>, QueryError>),
}

pub open spec fn step_view(s: PropertyStep) -> Option<Result<Option<Seq<u16>>, QueryError>> {
    match s {
        PropertyStep::CallAgain => None,
        PropertyStep::Finished(p) => Some(property_view(p)),
    }
}

/// The result of a property fetch after `reply`, if the fetch ends there.
pub open spec fn property_outcome(stage: QueryStage, reply: Reply, buf: Seq<u16>) -> Option<
    Result<Option<Seq<u16>>, QueryError>,
> {
    match outcome(stage, 0, reply, buf) {
        Some(r) => Some(presence_spec(r)),
        None => None,
    }
}

/// Takes the registry's reply to a property call made with `buf` and says
/// what comes next; `query` must have been made for a registry property.
pub fn get_device_property(query: &mut SizedQuery, reply: Reply, buf: &mut Vec<u16>) -> (s: PropertyStep)
    requires
        old(query).stage != QueryStage::Finished,
        old(query).offset == 0,
    ensures
        final(query).offset == 0,
        final(query).stage == next_stage(old(query).stage, reply),
        final(buf)@ == next_buffer(old(query).stage, 0, reply, old(buf)@),
        step_view(s) == property_outcome(old(query).stage, reply, old(buf)@),
        // After a fetch that found the property, the buffer is its text.
        s matches PropertyStep::Finished(Ok(Some(t))) ==> final(buf)@ == t@,
{
    match query.on_reply(reply, buf) {
        QueryAction::CallAgain => PropertyStep::CallAgain,
        QueryAction::Finished(r) => PropertyStep::Finished(property_value(r)),
    }
}

} // verus!
