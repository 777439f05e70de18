//! Port handles for posting messages to, and receiving them from, the isolates
//! of a host virtual machine.
//!
//! Every decision about a port (is it open, what is handed to the host, what a
//! host answer means) is made here and verified. The host is reached through
//! [`Host`], which keeps a ghost record of every call made and the answer
//! given; the operations are stated over that record. The embedding program
//! implements [`NativeApi`] over the host's function table.
pub mod prelude;

mod error;
mod laws;
mod message;
mod native_api;
mod port;
mod raw_receive_port;
mod send_port;

pub use error::{unit_result_view, Error, ErrorView, ILLEGAL_PORT_TEXT, INVALID_PORT_TEXT};
pub use laws::{close_twice, closes_reach_host_once, string_post_follows_host, unopened_refuses};
pub use message::{contains_nul, has_nul, is_sendable, nul_byte_iff_nul_char, Message, MessageView, NUL_IN_STRING};
pub use native_api::{
    close_port, close_step, post_integer_step, post_integer_to, post_message, post_step, Host, HostCall, NativeApi, NativePort,
};
pub use port::DartPort;
pub use raw_receive_port::{new_port_outcome, new_step, receive_result_view, RawReceivePort, NEW_PORT_FAILED};
pub use send_port::SendPort;
