pub mod actor;
pub mod bootstrap;
pub mod buffer;
pub mod client;
pub mod codec;

use vstd::prelude::*;

verus! {

/// The three-valued request/response payload of the wire protocol.
/// `Query` asks for the current inhibition state; `On` asks to acquire the
/// inhibition lease; `Off` asks to release it. The same type carries the
/// daemon's reply: `On` or `Off` report the (new) state.
#[derive(Clone, Copy, Debug, PartialEq, Eq, Structural)]
pub enum Signal {
    Query,
    On,
    Off,
}

} // verus!
