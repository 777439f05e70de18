use crate::error::{unit_result_view, Error, ErrorView};
use crate::message::{has_nul, is_sendable, Message, MessageView, NUL_IN_STRING};
use crate::native_api::{
    close_port, close_step, post_integer_step, post_integer_to, post_message, post_step, Host, NativeApi, NativePort,
};
use crate::prelude::{is_open_id, DartPortID, ILLEGAL_PORT_ID};
use vstd::prelude::*;
use vstd::string::StringSliceAdditionalSpecFns;

verus! {

/// Sends messages to the port of another isolate.
#[derive(Debug)]
pub struct SendPort {
    pub id: DartPortID,
}

impl Default for SendPort {
    fn default() -> (r: SendPort)
        ensures
            r.id == ILLEGAL_PORT_ID,
    {
        SendPort { id: ILLEGAL_PORT_ID }
    }
}

impl NativePort for SendPort {
    open spec fn port_id(&self) -> DartPortID {
        self.id
    }

    fn id(&self) -> (r: DartPortID) {
        self.id
    }
}

impl SendPort {
    /// A wrapper over the known port `id`.
    pub fn open(id: DartPortID) -> (r: SendPort)
        ensures
            r.id == id,
    {
        SendPort { id }
    }

    pub fn is_open(&self) -> (r: bool)
        ensures
            r == is_open_id(self.id),
    {
        self.id != ILLEGAL_PORT_ID
    }

    pub fn is_closed(&self) -> (r: bool)
        ensures
            r == !is_open_id(self.id),
    {
        !self.is_open()
    }

    /// Closes the port: the wrapper holds the sentinel afterwards, whatever the
    /// host answers, and the host is asked only where a port was open.
    pub fn close<H: NativeApi>(&mut self, api: &mut Host<H>) -> (r: Result<(), Error>)
        ensures
            final(self).id == ILLEGAL_PORT_ID,
            close_step(old(self).id, old(api).calls(), final(api).calls(), unit_result_view(r)),
            !is_open_id(old(self).id) ==> *final(api) == *old(api),
    {
        let id = self.id;
        self.id = ILLEGAL_PORT_ID;
        close_port(id, api)
    }

    /// Posts a null.
    pub fn post_null<H: NativeApi>(&self, api: &mut Host<H>) -> (r: Result<(), Error>)
        ensures
            post_step(self.id, MessageView::Null, old(api).calls(), final(api).calls(), unit_result_view(r)),
            !is_open_id(self.id) ==> *final(api) == *old(api),
    {
        post_message(self.id, api, &Message::Null)
    }

    /// Posts a boolean.
    pub fn post_bool<H: NativeApi>(&self, api: &mut Host<H>, value: bool) -> (r: Result<(), Error>)
        ensures
            post_step(self.id, MessageView::Bool(value), old(api).calls(), final(api).calls(), unit_result_view(r)),
            !is_open_id(self.id) ==> *final(api) == *old(api),
    {
        post_message(self.id, api, &Message::Bool(value))
    }

    /// Posts one integer through the host's integer post function.
    pub fn post_integer<H: NativeApi>(&self, api: &mut Host<H>, value: i64) -> (r: Result<(), Error>)
        ensures
            post_integer_step(self.id, value, old(api).calls(), final(api).calls(), unit_result_view(r)),
            !is_open_id(self.id) ==> *final(api) == *old(api),
    {
        post_integer_to(self.id, api, value)
    }

    /// Posts the integers of `values`, in order, as one typed-data message.
    pub fn post_integers<H: NativeApi>(&self, api: &mut Host<H>, values: &[i64]) -> (r: Result<(), Error>)
        ensures
            post_step(self.id, MessageView::Int64Array(values@), old(api).calls(), final(api).calls(), unit_result_view(r)),
            !is_open_id(self.id) ==> *final(api) == *old(api),
    {
        post_message(self.id, api, &Message::integers(values))
    }

    /// Posts a string; one holding a NUL byte is refused before the host is asked.
    pub fn post_string<H: NativeApi>(&self, api: &mut Host<H>, value: &str) -> (r: Result<(), Error>)
        ensures
            has_nul(value.spec_bytes()) ==> unit_result_view(r) == Err::<(), ErrorView>(ErrorView::Other(NUL_IN_STRING@))
                && *final(api) == *old(api),
            !has_nul(value.spec_bytes()) ==> post_step(
                self.id,
                MessageView::Utf8String(value@),
                old(api).calls(),
                final(api).calls(),
                unit_result_view(r),
            ),
            !is_open_id(self.id) ==> *final(api) == *old(api),
            has_nul(value.spec_bytes()) <==> value@.contains('\0'),
    {
        match Message::string(value) {
            Err(e) => Err(e),
            Ok(message) => post_message(self.id, api, &message),
        }
    }

    /// Posts a reference to `port`, with the sentinel as its origin.
    pub fn post_port<H: NativeApi>(&self, api: &mut Host<H>, port: &SendPort) -> (r: Result<(), Error>)
        ensures
            post_step(self.id, (MessageView::SendPort { id: port.id, origin_id: ILLEGAL_PORT_ID }), old(api).calls(), final(api).calls(), unit_result_view(r)),
            !is_open_id(self.id) ==> *final(api) == *old(api),
    {
        post_message(self.id, api, &Message::port(port.id))
    }

    /// Posts a message built by the caller; a string in it that holds a NUL
    /// byte is refused before the host is asked.
    pub fn post_cobject<H: NativeApi>(&self, api: &mut Host<H>, message: &Message) -> (r: Result<(), Error>)
        ensures
            post_step(self.id, message@, old(api).calls(), final(api).calls(), unit_result_view(r)),
            !is_open_id(self.id) || !is_sendable(message@) ==> *final(api) == *old(api),
    {
        post_message(self.id, api, message)
    }
}

} // verus!
