use crate::error::Error;
use crate::prelude::{DartPortID, ILLEGAL_PORT_ID};
use vstd::prelude::*;
use vstd::string::StringSliceAdditionalSpecFns;
use vstd::utf8::encode_utf8;

verus! {

/// The text of the error for a string that holds a NUL byte.
pub const NUL_IN_STRING: &'static str = "string must not contain embedded NULs";

/// The bytes hold a NUL, which a host string (NUL-terminated) cannot carry.
pub open spec fn has_nul(bytes: Seq<u8>) -> bool {
    bytes.contains(0u8)
}

/// A message as the host's post function takes it: one case per kind of value.
#[derive(Debug, Clone, PartialEq, Eq)]
pub enum Message {
    Null,
    Bool(bool),
    Int64(i64),
    Int64Array(Vec<i64>),
    Utf8String(String),
    SendPort { id: DartPortID, origin_id: DartPortID },
}

/// The mathematical value of a [`Message`].
pub enum MessageView {
    Null,
    Bool(bool),
    Int64(i64),
    Int64Array(Seq<i64>),
    Utf8String(Seq<char>),
    SendPort { id: DartPortID, origin_id: DartPortID },
}

impl View for Message {
    type V = MessageView;

    open spec fn view(&self) -> MessageView {
        match self {
            Message::Null => MessageView::Null,
            Message::Bool(b) => MessageView::Bool(*b),
            Message::Int64(v) => MessageView::Int64(*v),
            Message::Int64Array(v) => MessageView::Int64Array(v@),
            Message::Utf8String(s) => MessageView::Utf8String(s@),
            Message::SendPort { id, origin_id } => MessageView::SendPort { id: *id, origin_id: *origin_id },
        }
    }
}

/// The host can carry the message: a string in it holds no NUL byte.
pub open spec fn is_sendable(m: MessageView) -> bool {
    m matches MessageView::Utf8String(s) ==> !has_nul(encode_utf8(s))
}

/// Whether `value` holds a NUL byte.
pub fn contains_nul(value: &str) -> (r: bool)
    ensures
        r == has_nul(value.spec_bytes()),
        r == value@.contains('\0'),
{
    proof {
        nul_byte_iff_nul_char(value@);
    }
    let bytes = value.as_bytes();
    let mut i: usize = 0;
    while i < bytes.len()
        invariant
            bytes@ == value.spec_bytes(),
            has_nul(value.spec_bytes()) <==> value@.contains('\0'),
            0 <= i <= bytes@.len(),
            forall|j: int| 0 <= j < i ==> bytes@[j] != 0u8,
        decreases bytes@.len() - i,
    {
        if bytes[i] == 0u8 {
            assert(bytes@[i as int] == 0u8);
            return true;
        }
        i = i + 1;
    }
    false
}

impl Message {
    /// A typed-data message holding `values` in order.
    pub fn integers(values: &[i64]) -> (r: Message)
        ensures
            r@ == MessageView::Int64Array(values@),
    {
        Message::Int64Array(vstd::slice::slice_to_vec(values))
    }

    /// A reference to port `id`; the origin is always the sentinel.
    pub fn port(id: DartPortID) -> (r: Message)
        ensures
            r@ == (MessageView::SendPort { id, origin_id: ILLEGAL_PORT_ID }),
    {
        Message::SendPort { id, origin_id: ILLEGAL_PORT_ID }
    }

    /// A string message holding `value`, or an error where `value` holds a NUL byte.
    pub fn string(value: &str) -> (r: Result<Message, Error>)
        ensures
            has_nul(value.spec_bytes()) ==> (r matches Err(Error::Other(m)) && m@ == NUL_IN_STRING@),
            !has_nul(value.spec_bytes()) ==> (r matches Ok(m) && m@ == MessageView::Utf8String(value@)),
            has_nul(value.spec_bytes()) <==> value@.contains('\0'),
    {
        if contains_nul(value) {
            Err(Error::Other(String::from_str(NUL_IN_STRING)))
        } else {
            Ok(Message::Utf8String(String::from_str(value)))
        }
    }
}

/// A scalar's UTF-8 encoding holds a zero byte exactly when the scalar is zero:
/// every byte of a longer encoding has its high bit set.
proof fn scalar_zero_byte(s: u32)
    requires
        vstd::utf8::is_scalar(s),
    ensures
        vstd::utf8::encode_scalar(s).contains(0u8) <==> s == 0,
{
    let e = vstd::utf8::encode_scalar(s);
    if vstd::utf8::has_width_1_encoding(s) {
        assert(s <= 0x7f ==> ((s & 0x7f) as u8 == 0u8 <==> s == 0)) by (bit_vector);
        if s == 0 {
            assert(e[0] == 0u8);
        }
    } else {
        assert(s != 0);
        assert forall|x: u32| ((0xC0u8 | ((x >> 6) & 0x1F) as u8) != 0u8) && ((0xE0u8 | ((x >> 12) & 0x0F) as u8) != 0u8)
            && ((0xF0u8 | ((x >> 18) & 0x7) as u8) != 0u8) && ((0x80u8 | (x & 0x3F) as u8) != 0u8)
            && ((0x80u8 | ((x >> 6) & 0x3F) as u8) != 0u8) && ((0x80u8 | ((x >> 12) & 0x3F) as u8) != 0u8) by {
            assert(((0xC0u8 | ((x >> 6) & 0x1F) as u8) != 0u8) && ((0xE0u8 | ((x >> 12) & 0x0F) as u8) != 0u8)
                && ((0xF0u8 | ((x >> 18) & 0x7) as u8) != 0u8) && ((0x80u8 | (x & 0x3F) as u8) != 0u8)
                && ((0x80u8 | ((x >> 6) & 0x3F) as u8) != 0u8) && ((0x80u8 | ((x >> 12) & 0x3F) as u8) != 0u8))
                by (bit_vector);
        }
        assert(forall|i: int| 0 <= i < e.len() ==> e[i] != 0u8);
    }
}

/// The UTF-8 encoding of `chars` holds a NUL byte exactly when `chars` holds
/// the NUL character.
pub proof fn nul_byte_iff_nul_char(chars: Seq<char>)
    ensures
        has_nul(encode_utf8(chars)) <==> chars.contains('\0'),
    decreases chars.len(),
{
    if chars.len() > 0 {
        let head = vstd::utf8::encode_scalar(chars[0] as u32);
        let tail = vstd::utf8::encode_utf8(chars.drop_first());
        let all = vstd::utf8::encode_utf8(chars);
        assert(all == head + tail);
        vstd::utf8::char_is_scalar(chars[0]);
        scalar_zero_byte(chars[0] as u32);
        nul_byte_iff_nul_char(chars.drop_first());
        vstd::utf8::char_u32_cast(chars[0], chars[0] as u32);
        vstd::utf8::char_u32_cast('\0', '\0' as u32);
        assert((chars[0] as u32 == 0) <==> chars[0] == '\0');
        if all.contains(0u8) {
            let i = choose|i: int| 0 <= i < all.len() && all[i] == 0u8;
            if i < head.len() {
                assert(head[i] == 0u8);
            } else {
                assert(tail[i - head.len()] == 0u8);
                let j = choose|j: int| 0 <= j < chars.drop_first().len() && chars.drop_first()[j] == '\0';
                assert(chars[j + 1] == '\0');
            }
        }
        if chars.contains('\0') {
            let j = choose|j: int| 0 <= j < chars.len() && chars[j] == '\0';
            if j == 0 {
                let i = choose|i: int| 0 <= i < head.len() && head[i] == 0u8;
                assert(all[i] == 0u8);
            } else {
                assert(chars.drop_first()[j - 1] == '\0');
                let i = choose|i: int| 0 <= i < tail.len() && tail[i] == 0u8;
                assert(all[head.len() + i] == 0u8);
            }
        }
    }
}

} // verus!
