use crate::error::{unit_result_view, Error, ErrorView};
use crate::native_api::{close_port, close_step, HostCall, Host, NativeApi, NativePort};
use crate::prelude::{is_open_id, DartPortID, ILLEGAL_PORT_ID};
use vstd::prelude::*;

verus! {

/// The text of the error for a port the host could not allocate.
pub const NEW_PORT_FAILED: &'static str = "Dart_NewNativePort_DL";

/// What a receive port becomes when the host allocated `allocated`: the
/// sentinel means the host had no port to give.
pub open spec fn new_port_outcome(allocated: DartPortID) -> Result<DartPortID, ErrorView> {
    if is_open_id(allocated) {
        Ok(allocated)
    } else {
        Err(ErrorView::Other(NEW_PORT_FAILED@))
    }
}

/// Opening a receive port took the host's record from `before` to `after` and
/// gave `r`: one allocation, and `r` is what its answer means.
pub open spec fn new_step(before: Seq<HostCall>, after: Seq<HostCall>, r: Result<DartPortID, ErrorView>) -> bool {
    let allocated = match r {
        Ok(id) => id,
        Err(_) => ILLEGAL_PORT_ID,
    };
    after == before.push(HostCall::Allocate(allocated)) && r == new_port_outcome(allocated)
}

/// A low-level asynchronous message receiver.
///
/// The host delivers the port's messages to the receive callback of the
/// embedding program, on a thread of its own, until the port is closed.
/// The port cannot be paused; messages that arrive before a handler is in
/// place are lost.
#[derive(Debug)]
pub struct RawReceivePort {
    pub id: DartPortID,
}

/// The view of the result of opening a receive port: the id it holds.
pub open spec fn receive_result_view(r: Result<RawReceivePort, Error>) -> Result<DartPortID, ErrorView> {
    match r {
        Ok(p) => Ok(p.id),
        Err(e) => Err(e@),
    }
}

impl Default for RawReceivePort {
    fn default() -> (r: RawReceivePort)
        ensures
            r.id == ILLEGAL_PORT_ID,
    {
        RawReceivePort { id: ILLEGAL_PORT_ID }
    }
}

impl NativePort for RawReceivePort {
    open spec fn port_id(&self) -> DartPortID {
        self.id
    }

    fn id(&self) -> (r: DartPortID) {
        self.id
    }
}

impl RawReceivePort {
    /// The receive port over the id that the host allocated.
    pub fn from_allocated(allocated: DartPortID) -> (r: Result<RawReceivePort, Error>)
        ensures
            receive_result_view(r) == new_port_outcome(allocated),
    {
        if allocated == ILLEGAL_PORT_ID {
            Err(Error::Other(String::from_str(NEW_PORT_FAILED)))
        } else {
            Ok(RawReceivePort { id: allocated })
        }
    }

    /// Opens a long-lived port for receiving messages.
    pub fn new<H: NativeApi>(api: &mut Host<H>) -> (r: Result<RawReceivePort, Error>)
        ensures
            new_step(old(api).calls(), final(api).calls(), receive_result_view(r)),
    {
        let allocated = api.new_native_port();
        RawReceivePort::from_allocated(allocated)
    }

    /// Closes the port. Afterwards the host drops every message sent to it and
    /// the callback is not called for it again; the wrapper holds the sentinel.
    pub fn close<H: NativeApi>(&mut self, api: &mut Host<H>) -> (r: Result<(), Error>)
        ensures
            final(self).id == ILLEGAL_PORT_ID,
            close_step(old(self).id, old(api).calls(), final(api).calls(), unit_result_view(r)),
            !is_open_id(old(self).id) ==> *final(api) == *old(api),
    {
        let id = self.id;
        self.id = ILLEGAL_PORT_ID;
        close_port(id, api)
    }
}

} // verus!
