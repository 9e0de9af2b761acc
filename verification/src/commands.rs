//! The answers to the commands of a peer's user.

use libp2p::multiaddr::Multiaddr;
use vstd::prelude::*;

use crate::address::{address_parts, Part};
use crate::state::SharedState;

verus! {

/// The address that a text spells, or in words why it spells none.
pub uninterp spec fn parsed_address(text: Seq<char>) -> Result<Seq<Part>, Seq<char>>;

/// `str::parse` into a `Multiaddr`: the address that the text spells, or the
/// error in words.
#[verifier::external_body]
fn parse_address(text: &str) -> (res: Result<Multiaddr, String>)
    ensures
        match parsed_address(text@) {
            Ok(parts) => res matches Ok(address) && address_parts(address) == parts,
            Err(reason) => res matches Err(error) && error@ == reason,
        },
{
    text.parse::<Multiaddr>().map_err(|error| error.to_string())
}

/// A failure as the user gets to read it: what failed, then why.
pub open spec fn explained<T>(
    result: Result<T, String>,
    failure: Seq<char>,
    answer: Result<T, String>,
) -> bool {
    match result {
        Ok(value) => answer == Ok::<T, String>(value),
        Err(reason) => answer matches Err(text) && text@ == failure + reason@,
    }
}

fn explain<T>(result: Result<T, String>, failure: &str) -> (res: Result<T, String>)
    ensures
        explained(result, failure@, res),
{
    match result {
        Ok(value) => Ok(value),
        Err(reason) => Err(failure.to_owned().concat(reason.as_str())),
    }
}

/// The messages that a peer has after its user has sent one: one that could be
/// published is kept, one that could not is not.
pub open spec fn after_send(
    messages: Seq<Seq<char>>,
    message: Seq<char>,
    published: bool,
) -> Seq<Seq<char>> {
    if published {
        messages.push(message)
    } else {
        messages
    }
}

/// Answers a request to send a message, once it is known whether the message
/// could be published.
pub fn send_message(
    state: &mut SharedState,
    message: String,
    published: Result<(), String>,
) -> (res: Result<(), String>)
    ensures
        final(state)@ == after_send(old(state)@, message@, published is Ok),
        explained(published, "Failed to publish message: "@, res),
{
    if published.is_ok() {
        state.add_message(message);
    }
    publish_answer(published)
}

/// Answers a request to send a message, as far as publishing it goes.
pub fn publish_answer(published: Result<(), String>) -> (res: Result<(), String>)
    ensures
        explained(published, "Failed to publish message: "@, res),
{
    explain(published, "Failed to publish message: ")
}

/// Answers a request to connect to a peer with the address to dial.
pub fn connect_peer(multiaddr: &str) -> (res: Result<Multiaddr, String>)
    ensures
        match parsed_address(multiaddr@) {
            Ok(parts) => res matches Ok(address) && address_parts(address) == parts,
            Err(reason) => res matches Err(text) && text@ == "Invalid multiaddr: "@ + reason,
        },
{
    parse_answer(parse_address(multiaddr))
}

/// Answers a request to connect to a peer, once its address is parsed.
pub fn parse_answer(parsed: Result<Multiaddr, String>) -> (res: Result<Multiaddr, String>)
    ensures
        explained(parsed, "Invalid multiaddr: "@, res),
{
    explain(parsed, "Invalid multiaddr: ")
}

/// Answers a request to connect to a peer, once the peer has been dialled.
pub fn dial_answer(dialed: Result<(), String>) -> (res: Result<(), String>)
    ensures
        explained(dialed, "Failed to dial: "@, res),
{
    explain(dialed, "Failed to dial: ")
}

/// The answer of a command that ran in a task of its own: the task's answer, or
/// why the task did not end well.
pub fn task_answer(joined: Result<Result<(), String>, String>) -> (res: Result<(), String>)
    ensures
        match joined {
            Ok(answer) => res == answer,
            Err(reason) => res matches Err(text) && text@ == "Task join error: "@ + reason@,
        },
{
    match explain(joined, "Task join error: ") {
        Ok(answer) => answer,
        Err(text) => Err(text),
    }
}

} // verus!
