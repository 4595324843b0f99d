//! The command server's per-connection logic.
//!
//! The surrounding loop (bind, accept, read) is process plumbing; what is
//! here is everything a connection does once its payload has been read:
//! strict decoding and the dispatch into the shared brightness cell. A
//! connection ends `Applied` or `Closed`; a payload that is not a canonical
//! command encoding is discarded without effect, and never stops the server.

use vstd::prelude::*;
use crate::codec::{decode_command, decode_spec};
use crate::command::{command_apply_spec, Command};
use crate::percent::{applies_some, clamp_percent, is_percent, set_spec};
use crate::shared::{mutate_spec, Mutation, SharedBrightness};

verus! {

/// The terminal state of one client connection.
#[derive(Clone, Copy, Debug, PartialEq, Eq, Structural)]
pub enum ConnOutcome {
    /// The payload decoded to a command; it was applied, and the shared
    /// cell now holds the carried value.
    Applied(u8),
    /// The payload was rejected at decode time; the connection is closed
    /// without any effect on the shared cell.
    Closed,
}

/// Applies one decoded command to the shared cell: a delta goes through the
/// atomic replace, an absolute value through the clamped set. Returns the
/// value the cell received.
pub fn dispatch_command(shared: &SharedBrightness, cmd: Command) -> (r: u8)
    ensures
        is_percent(r as int),
        match cmd {
            Command::Increase(d) => applies_some(r as int, d as int),
            Command::Decrease(d) => applies_some(r as int, -(d as int)),
            Command::SetAbsolute(v) => r == set_spec(v as int),
        },
{
    match cmd {
        Command::Increase(d) => shared.apply_delta(d as i16),
        Command::Decrease(d) => shared.apply_delta(-(d as i16)),
        Command::SetAbsolute(v) => {
            shared.set(v);
            clamp_percent(v)
        },
    }
}

/// Handles one connection's payload: decodes strictly and applies on
/// success. Exactly the payloads that are canonical command encodings are
/// applied; every other byte string closes the connection with no effect.
pub fn handle_connection(shared: &SharedBrightness, payload: &[u8]) -> (r: ConnOutcome)
    ensures
        (r is Applied) <==> (decode_spec(payload@) is Some),
        match r {
            ConnOutcome::Applied(v) => {
                &&& is_percent(v as int)
                &&& match decode_spec(payload@)->Some_0 {
                    Command::Increase(d) => applies_some(v as int, d as int),
                    Command::Decrease(d) => applies_some(v as int, -(d as int)),
                    Command::SetAbsolute(x) => v == set_spec(x as int),
                }
            },
            ConnOutcome::Closed => true,
        },
{
    match decode_command(payload) {
        Some(cmd) => ConnOutcome::Applied(dispatch_command(shared, cmd)),
        None => ConnOutcome::Closed,
    }
}

/// The serialized mutation a command's dispatch performs on the cell.
pub open spec fn mutation_of(cmd: Command) -> Mutation {
    match cmd {
        Command::Increase(d) => Mutation::Delta(d as int as i16),
        Command::Decrease(d) => Mutation::Delta(-(d as int) as i16),
        Command::SetAbsolute(v) => Mutation::Absolute(v),
    }
}

/// Dispatching a command is one step of the cell's serialized history: its
/// effect on any held value is exactly the command's own effect. So the
/// value after any arrival order of decoded commands is the fold of their
/// applications in that order.
pub proof fn lemma_dispatch_is_one_mutation(current: int, cmd: Command)
    ensures
        mutate_spec(current, mutation_of(cmd)) == command_apply_spec(current, cmd),
{
}

/// What removing the stale socket artifact before binding reported.
#[derive(Clone, Copy, Debug, PartialEq, Eq, Structural)]
pub enum CleanupOutcome {
    /// A leftover file existed and was removed.
    Removed,
    /// Nothing was at the path.
    NotFound,
    /// The removal failed for any other reason.
    Failed,
}

/// Whether the server may go on to bind its endpoint after the pre-bind
/// cleanup: a missing file is no error, a removed leftover is fine, and any
/// other removal failure is fatal to startup.
pub fn may_bind_after_cleanup(outcome: CleanupOutcome) -> (r: bool)
    ensures
        r == !(outcome is Failed),
{
    match outcome {
        CleanupOutcome::Removed => true,
        CleanupOutcome::NotFound => true,
        CleanupOutcome::Failed => false,
    }
}

} // verus!
