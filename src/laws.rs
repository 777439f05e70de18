//! Laws that relate the operations of the ports to one another, stated over
//! the steps that the operations' contracts name.
use crate::error::ErrorView;
use crate::message::{has_nul, MessageView, NUL_IN_STRING};
use crate::native_api::{close_step, post_integer_step, post_step, HostCall};
use crate::prelude::{is_open_id, DartPortID, ILLEGAL_PORT_ID};
use vstd::prelude::*;
use vstd::utf8::encode_utf8;

verus! {

/// Closing a wrapper twice (the first close leaves the sentinel behind): the
/// first close asks the host to close the port, if one was open, and succeeds
/// exactly when the host accepts; the second one fails with `IllegalPort` and
/// asks the host nothing.
pub proof fn close_twice(
    id: DartPortID,
    c0: Seq<HostCall>,
    c1: Seq<HostCall>,
    c2: Seq<HostCall>,
    r1: Result<(), ErrorView>,
    r2: Result<(), ErrorView>,
)
    requires
        close_step(id, c0, c1, r1),
        close_step(ILLEGAL_PORT_ID, c1, c2, r2),
    ensures
        is_open_id(id) ==> c1 == c0.push(HostCall::Close(id, r1 is Ok)),
        is_open_id(id) ==> (r1 is Ok || r1 == Err::<(), ErrorView>(ErrorView::InvalidPort)),
        !is_open_id(id) ==> c1 == c0 && r1 == Err::<(), ErrorView>(ErrorView::IllegalPort),
        r2 == Err::<(), ErrorView>(ErrorView::IllegalPort),
        c2 == c1,
{
}

/// A wrapper that was never opened refuses every post and every close with
/// `IllegalPort`, and the host is asked nothing.
pub proof fn unopened_refuses(
    message: MessageView,
    value: i64,
    before: Seq<HostCall>,
    after_post: Seq<HostCall>,
    after_integer: Seq<HostCall>,
    after_close: Seq<HostCall>,
    r_post: Result<(), ErrorView>,
    r_integer: Result<(), ErrorView>,
    r_close: Result<(), ErrorView>,
)
    requires
        post_step(ILLEGAL_PORT_ID, message, before, after_post, r_post),
        post_integer_step(ILLEGAL_PORT_ID, value, before, after_integer, r_integer),
        close_step(ILLEGAL_PORT_ID, before, after_close, r_close),
    ensures
        after_post == before,
        after_integer == before,
        after_close == before,
        r_post == Err::<(), ErrorView>(ErrorView::IllegalPort),
        r_integer == Err::<(), ErrorView>(ErrorView::IllegalPort),
        r_close == Err::<(), ErrorView>(ErrorView::IllegalPort),
{
}

/// Posting a string on an open port: without a NUL byte, the host is asked
/// once to post it and the post succeeds exactly when the host accepts; with a
/// NUL byte, it fails locally and the host is asked nothing.
pub proof fn string_post_follows_host(
    id: DartPortID,
    chars: Seq<char>,
    before: Seq<HostCall>,
    after: Seq<HostCall>,
    r: Result<(), ErrorView>,
)
    requires
        is_open_id(id),
        post_step(id, MessageView::Utf8String(chars), before, after, r),
    ensures
        !has_nul(encode_utf8(chars)) ==> after.len() == before.len() + 1 && after.drop_last() == before,
        !has_nul(encode_utf8(chars)) ==> (r is Ok <==> after.last() == HostCall::Post(
            id,
            MessageView::Utf8String(chars),
            true,
        )),
        !has_nul(encode_utf8(chars)) ==> (r is Ok || r == Err::<(), ErrorView>(ErrorView::InvalidPort)),
        has_nul(encode_utf8(chars)) ==> after == before && r == Err::<(), ErrorView>(
            ErrorView::Other(NUL_IN_STRING@),
        ),
{
    if !has_nul(encode_utf8(chars)) {
        assert(after.drop_last() =~= before);
    }
}

/// However many closes are made on one wrapper, one after the other (as
/// exclusive access makes them, from however many threads): every close after
/// the first finds the sentinel and fails with `IllegalPort`, and over all of
/// them the host is asked to close the port exactly once if it was open, and
/// never otherwise. `records[i]` is the host's record before close `i`.
pub proof fn closes_reach_host_once(
    id: DartPortID,
    records: Seq<Seq<HostCall>>,
    results: Seq<Result<(), ErrorView>>,
)
    requires
        results.len() >= 1,
        records.len() == results.len() + 1,
        close_step(id, records[0], records[1], results[0]),
        forall|i: int|
            1 <= i < results.len() ==> #[trigger] close_step(ILLEGAL_PORT_ID, records[i], records[i + 1], results[i]),
    ensures
        records.last() == (if is_open_id(id) {
            records[0].push(HostCall::Close(id, results[0] is Ok))
        } else {
            records[0]
        }),
        forall|i: int| 1 <= i < results.len() ==> results[i] == Err::<(), ErrorView>(ErrorView::IllegalPort),
{
    sentinel_closes_keep_record(records, results, results.len() as int);
    assert forall|i: int| 1 <= i < results.len() implies results[i] == Err::<(), ErrorView>(ErrorView::IllegalPort) by {
        assert(close_step(ILLEGAL_PORT_ID, records[i], records[i + 1], results[i]));
    }
}

/// Closes on the sentinel leave the host's record as they found it.
proof fn sentinel_closes_keep_record(records: Seq<Seq<HostCall>>, results: Seq<Result<(), ErrorView>>, k: int)
    requires
        1 <= k <= results.len(),
        records.len() == results.len() + 1,
        forall|i: int|
            1 <= i < results.len() ==> #[trigger] close_step(ILLEGAL_PORT_ID, records[i], records[i + 1], results[i]),
    ensures
        records[k] == records[1],
    decreases k,
{
    if k > 1 {
        sentinel_closes_keep_record(records, results, k - 1);
        let i = k - 1;
        assert(close_step(ILLEGAL_PORT_ID, records[i], records[i + 1], results[i]));
    }
}

} // verus!
