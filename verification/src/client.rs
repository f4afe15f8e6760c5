//! Client-driver decisions: which request one invocation sends, and how a
//! reply is rendered. The surrounding connect/spawn/await steps are plain
//! I/O and live outside the library.

use vstd::prelude::*;
use crate::Signal;

verus! {

/// The request an invocation sends: the one named on the command line, or
/// `Query` when none was.
pub fn default_request(command: Option<Signal>) -> (r: Signal)
    ensures
        command matches Some(s) ==> r == s,
        command is None ==> r is Query,
{
    match command {
        Some(s) => s,
        None => Signal::Query,
    }
}

/// The line printed for a daemon reply: `ON` or `OFF` for the two state
/// replies, and `None` for a `Query` reply, which a daemon never sends — the
/// invocation must then fail.
pub fn render_reply(reply: &Signal) -> (r: Option<&'static str>)
    ensures
        *reply is On ==> (r matches Some(line) && line@ == "ON"@),
        *reply is Off ==> (r matches Some(line) && line@ == "OFF"@),
        *reply is Query ==> r is None,
{
    match reply {
        Signal::On => Some("ON"),
        Signal::Off => Some("OFF"),
        Signal::Query => None,
    }
}

} // verus!
