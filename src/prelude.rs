//! Port ids and the rules shared by every kind of port.
use crate::error::{Error, ErrorView};
use vstd::prelude::*;

verus! {

/// The host's identifier of a port.
pub type DartPortID = i64;

/// A port number guaranteed never to be associated with a valid port.
pub const ILLEGAL_PORT_ID: DartPortID = 0;

/// A slot holding `id` refers to a real port.
pub open spec fn is_open_id(id: DartPortID) -> bool {
    id != ILLEGAL_PORT_ID
}

/// The port that an operation on a slot holding `id` is addressed to, or
/// `IllegalPort` where the slot holds the sentinel.
pub open spec fn target_of(id: DartPortID) -> Result<DartPortID, ErrorView> {
    if is_open_id(id) {
        Ok(id)
    } else {
        Err(ErrorView::IllegalPort)
    }
}

/// What a host answer means: success, or a port the host does not recognise.
pub open spec fn host_outcome(accepted: bool) -> Result<(), ErrorView> {
    if accepted {
        Ok(())
    } else {
        Err(ErrorView::InvalidPort)
    }
}

/// The port that an operation on a slot holding `id` is addressed to.
pub fn port_target(id: DartPortID) -> (r: Result<DartPortID, Error>)
    ensures
        match r {
            Ok(t) => target_of(id) == Ok::<DartPortID, ErrorView>(t),
            Err(e) => target_of(id) == Err::<DartPortID, ErrorView>(e@),
        },
{
    if id == ILLEGAL_PORT_ID {
        Err(Error::IllegalPort)
    } else {
        Ok(id)
    }
}

/// Turns the host's answer to a close or a post into this library's result.
pub fn accepted_or_invalid(accepted: bool) -> (r: Result<(), Error>)
    ensures
        crate::error::unit_result_view(r) == host_outcome(accepted),
{
    if accepted {
        Ok(())
    } else {
        Err(Error::InvalidPort)
    }
}

} // verus!
