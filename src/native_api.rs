use crate::error::{unit_result_view, Error, ErrorView};
use crate::message::{contains_nul, is_sendable, Message, MessageView, NUL_IN_STRING};
use crate::prelude::{accepted_or_invalid, host_outcome, is_open_id, port_target, DartPortID};
use vstd::prelude::*;

verus! {

/// One call made to the host, with the host's answer.
pub enum HostCall {
    /// A native port was allocated; the answer is its id, or the sentinel.
    Allocate(DartPortID),
    /// The port was closed; the answer says whether the host knew it.
    Close(DartPortID, bool),
    /// The message was posted to the port; the answer says whether it was taken.
    Post(DartPortID, MessageView, bool),
    /// The integer was posted to the port; the answer says whether it was taken.
    PostInteger(DartPortID, i64, bool),
}

/// The host's native port functions, as the embedding program reaches them.
///
/// Nothing is assumed of an implementation: the operations of this library
/// reach it through [`Host`], which records each call and the answer given.
pub trait NativeApi {
    /// Allocates a native port whose messages go to the library's receive
    /// callback; returns the new id, or the sentinel where none was allocated.
    fn new_native_port(&mut self) -> DartPortID;

    /// Closes a native port; `false` where the host did not know it.
    fn close_native_port(&mut self, id: DartPortID) -> bool;

    /// Copies `message` into the queue of port `id`; `false` where the host
    /// rejected the port.
    fn post_cobject(&mut self, id: DartPortID, message: &Message) -> bool;

    /// Posts one integer to port `id`; `false` where the host rejected the port.
    fn post_integer(&mut self, id: DartPortID, value: i64) -> bool;
}

/// A handle on the host: every call made through it is added, with the
/// host's answer, to a ghost record that the port operations are stated over.
pub struct Host<H: NativeApi> {
    pub api: H,
    pub record: Ghost<Seq<HostCall>>,
}

impl<H: NativeApi> Host<H> {
    /// The calls made through this handle so far, oldest first.
    pub open spec fn calls(&self) -> Seq<HostCall> {
        self.record@
    }

    /// A handle on `api` through which no call has been made yet.
    pub fn new(api: H) -> (r: Host<H>)
        ensures
            r.calls() == Seq::<HostCall>::empty(),
            r.api == api,
    {
        Host { api, record: Ghost(Seq::empty()) }
    }

    /// Asks the host for a new native port.
    pub fn new_native_port(&mut self) -> (r: DartPortID)
        ensures
            final(self).calls() == old(self).calls().push(HostCall::Allocate(r)),
    {
        let r = self.api.new_native_port();
        self.record = Ghost(self.record@.push(HostCall::Allocate(r)));
        r
    }

    /// Asks the host to close port `id`.
    pub fn close_native_port(&mut self, id: DartPortID) -> (r: bool)
        ensures
            final(self).calls() == old(self).calls().push(HostCall::Close(id, r)),
    {
        let r = self.api.close_native_port(id);
        self.record = Ghost(self.record@.push(HostCall::Close(id, r)));
        r
    }

    /// Asks the host to post `message` to port `id`.
    pub fn post_cobject(&mut self, id: DartPortID, message: &Message) -> (r: bool)
        ensures
            final(self).calls() == old(self).calls().push(HostCall::Post(id, message@, r)),
    {
        let r = self.api.post_cobject(id, message);
        self.record = Ghost(self.record@.push(HostCall::Post(id, message@, r)));
        r
    }

    /// Asks the host to post the integer `value` to port `id`.
    pub fn post_integer(&mut self, id: DartPortID, value: i64) -> (r: bool)
        ensures
            final(self).calls() == old(self).calls().push(HostCall::PostInteger(id, value, r)),
    {
        let r = self.api.post_integer(id, value);
        self.record = Ghost(self.record@.push(HostCall::PostInteger(id, value, r)));
        r
    }
}

/// Closing the port that a slot held (`id`) took the host's record from
/// `before` to `after` and gave `r`: on the sentinel, `IllegalPort` and no call;
/// otherwise one close of `id`, and `r` is what the host answered.
pub open spec fn close_step(id: DartPortID, before: Seq<HostCall>, after: Seq<HostCall>, r: Result<(), ErrorView>) -> bool {
    if !is_open_id(id) {
        after == before && r == Err::<(), ErrorView>(ErrorView::IllegalPort)
    } else {
        after == before.push(HostCall::Close(id, r is Ok)) && r == host_outcome(r is Ok)
    }
}

/// Posting `message` through a slot holding `id` took the host's record from
/// `before` to `after` and gave `r`: on the sentinel, `IllegalPort` and no call;
/// a string with a NUL is refused without a call; otherwise one post of
/// `message` to `id`, and `r` is what the host answered.
pub open spec fn post_step(
    id: DartPortID,
    message: MessageView,
    before: Seq<HostCall>,
    after: Seq<HostCall>,
    r: Result<(), ErrorView>,
) -> bool {
    if !is_open_id(id) {
        after == before && r == Err::<(), ErrorView>(ErrorView::IllegalPort)
    } else if !is_sendable(message) {
        after == before && r == Err::<(), ErrorView>(ErrorView::Other(NUL_IN_STRING@))
    } else {
        after == before.push(HostCall::Post(id, message, r is Ok)) && r == host_outcome(r is Ok)
    }
}

/// Posting the integer `value` through a slot holding `id`: on the sentinel,
/// `IllegalPort` and no call; otherwise one integer post of `value` to `id`,
/// and `r` is what the host answered.
pub open spec fn post_integer_step(
    id: DartPortID,
    value: i64,
    before: Seq<HostCall>,
    after: Seq<HostCall>,
    r: Result<(), ErrorView>,
) -> bool {
    if !is_open_id(id) {
        after == before && r == Err::<(), ErrorView>(ErrorView::IllegalPort)
    } else {
        after == before.push(HostCall::PostInteger(id, value, r is Ok)) && r == host_outcome(r is Ok)
    }
}

/// Closes the port that a slot held (`id`, already taken out of the slot).
pub fn close_port<H: NativeApi>(id: DartPortID, api: &mut Host<H>) -> (r: Result<(), Error>)
    ensures
        close_step(id, old(api).calls(), final(api).calls(), unit_result_view(r)),
        !is_open_id(id) ==> *final(api) == *old(api),
{
    match port_target(id) {
        Err(e) => Err(e),
        Ok(target) => {
            let accepted = api.close_native_port(target);
            accepted_or_invalid(accepted)
        },
    }
}

/// Posts `message` to the port that a slot holds (`id`).
pub fn post_message<H: NativeApi>(id: DartPortID, api: &mut Host<H>, message: &Message) -> (r: Result<(), Error>)
    ensures
        post_step(id, message@, old(api).calls(), final(api).calls(), unit_result_view(r)),
        !is_open_id(id) || !is_sendable(message@) ==> *final(api) == *old(api),
{
    match port_target(id) {
        Err(e) => Err(e),
        Ok(target) => {
            if let Message::Utf8String(s) = message {
                if contains_nul(s.as_str()) {
                    return Err(Error::Other(String::from_str(NUL_IN_STRING)));
                }
            }
            let accepted = api.post_cobject(target, message);
            accepted_or_invalid(accepted)
        },
    }
}

/// Posts one integer to the port that a slot holds (`id`).
pub fn post_integer_to<H: NativeApi>(id: DartPortID, api: &mut Host<H>, value: i64) -> (r: Result<(), Error>)
    ensures
        post_integer_step(id, value, old(api).calls(), final(api).calls(), unit_result_view(r)),
        !is_open_id(id) ==> *final(api) == *old(api),
{
    match port_target(id) {
        Err(e) => Err(e),
        Ok(target) => {
            let accepted = api.post_integer(target, value);
            accepted_or_invalid(accepted)
        },
    }
}

/// What every kind of port has: the id it holds.
pub trait NativePort {
    /// The id the port holds (the sentinel where it is closed).
    spec fn port_id(&self) -> DartPortID;

    /// The id the port holds (the sentinel where it is closed).
    fn id(&self) -> (r: DartPortID)
        ensures
            r == self.port_id(),
    ;
}

} // verus!
