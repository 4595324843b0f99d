//! The instance gate: leader or client, decided exactly once at startup.
//!
//! The OS-level step — a non-blocking exclusive lock attempt on the
//! well-known lock path — happens in the process plumbing; what it reports
//! is a single fact, "this process holds the lock". The decision made from
//! that fact, and the client's whole message construction, are here.

use vstd::prelude::*;
use crate::codec::{decode_spec, encode_command, encode_spec, lemma_codec_round_trip};
use crate::command::{parse_args_spec, parse_command_from_args, Command};

verus! {

/// The part a process plays for its whole lifetime.
#[derive(Clone, Copy, Debug, PartialEq, Eq, Structural)]
pub enum Role {
    /// Holds the exclusive lock: starts the shared cell, the device writer,
    /// the command server and the control surface.
    Leader,
    /// Lost the lock race: sends exactly one command to the leader and
    /// exits.
    Client,
}

/// Lock holders lead; everyone else is a client.
pub open spec fn role_spec(lock_acquired: bool) -> Role {
    if lock_acquired {
        Role::Leader
    } else {
        Role::Client
    }
}

/// Decides this process's role from the outcome of its non-blocking
/// exclusive lock attempt: leader exactly when the lock was acquired.
pub fn decide_role(lock_acquired: bool) -> (r: Role)
    ensures
        r == role_spec(lock_acquired),
        (r is Leader) <==> lock_acquired,
{
    if lock_acquired {
        Role::Leader
    } else {
        Role::Client
    }
}

/// Of two processes racing for the same lock, the OS grants the exclusive
/// lock to exactly one; so exactly one of the two becomes the leader, and
/// the other a client.
pub proof fn lemma_single_leader(first_acquired: bool, second_acquired: bool)
    requires
        first_acquired != second_acquired,
    ensures
        (role_spec(first_acquired) is Leader) != (role_spec(second_acquired) is Leader),
        (role_spec(first_acquired) is Client) != (role_spec(second_acquired) is Client),
{
}

/// The client path: turns this invocation's arguments (program name already
/// stripped) into the one wire message to send. Arguments that do not parse
/// into a valid command produce no message at all — the client must fail
/// fast without connecting.
pub fn client_message(args: &[String]) -> (r: Option<Vec<u8>>)
    ensures
        match r {
            Some(bytes) => parse_args_spec(args@) is Some && bytes@ == encode_spec(
                parse_args_spec(args@)->Some_0,
            ),
            None => parse_args_spec(args@) is None,
        },
{
    match parse_command_from_args(args) {
        Some(cmd) => Some(encode_command(&cmd)),
        None => None,
    }
}

/// Wire agreement: whatever command a client's arguments mean, the leader's
/// strict decoder reads the client's one message back as that very command.
pub proof fn lemma_client_understood(args: Seq<String>, cmd: Command)
    requires
        parse_args_spec(args) == Some(cmd),
    ensures
        decode_spec(encode_spec(cmd)) == Some(cmd),
{
    lemma_codec_round_trip(cmd);
}

} // verus!
