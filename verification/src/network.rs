//! The control-plane message vocabulary and its error kinds.
//!
//! Peers exchange one request and at most one response per connection.
//! The transport itself (sockets, framing) lives outside the library;
//! here stand the messages, the errors, and the interpretation of a
//! response: which variant a request expects back, and what anything
//! else means.

use vstd::prelude::*;

use crate::node::{Addr, Neighbor};

verus! {

/// A control-plane message between peers.
#[derive(Clone, Copy, PartialEq, Debug)]
pub enum Message {
    /// Ask for the owner of an identifier; expects `LookupResult`.
    Lookup(crate::routing::id::Identifier),
    /// The owner found by a lookup walk.
    LookupResult(Neighbor),
    /// Ask a peer for its predecessor; expects `PredecessorResponse`.
    GetPredecessor,
    /// The predecessor of the asked peer, if it knows one.
    PredecessorResponse(Option<Neighbor>),
    /// Ask a peer for its successor; expects `SuccessorResponse`.
    GetSuccessor,
    /// The successor of the asked peer.
    SuccessorResponse(Neighbor),
    /// Hint that the sender may be the receiver's predecessor; no reply.
    Notify(Neighbor),
    /// The receiver's predecessor left; the carried peer replaces it; no reply.
    LeavePredecessor(Option<Neighbor>),
    /// The receiver's successor left; the carried peer replaces it; no reply.
    LeaveSuccessor(Neighbor),
    /// Liveness probe; expects `Pong`.
    Ping,
    /// Answer to `Ping`.
    Pong,
}

/// Whether a message is a request a peer handles, rather than a response.
pub open spec fn is_request(msg: Message) -> bool {
    match msg {
        Message::Lookup(_) => true,
        Message::Notify(_) => true,
        Message::GetPredecessor => true,
        Message::GetSuccessor => true,
        Message::LeaveSuccessor(_) => true,
        Message::LeavePredecessor(_) => true,
        Message::Ping => true,
        _ => false,
    }
}

/// What can go wrong when talking to another peer.
#[derive(Clone, Copy, PartialEq, Debug)]
pub enum MessageError {
    /// The transport failed: connect, read or write error, or timeout.
    IOError,
    /// The message envelope could not be decoded.
    SerdeError,
    /// The peer answered a request with the wrong variant, or stayed
    /// silent where an answer was owed: (request sent, answer got).
    UnexpectedResponse(Message, Option<Message>),
    /// A forwarded data-plane request returned this unexpected HTTP status.
    HTTPStatusError(u16),
    /// Both the successor and the cached second successor are unreachable
    /// from the peer with this address.
    AllSuccessorsDead(Addr),
}

/// The answer a `Lookup` request owes: the owner found.
pub fn expect_lookup_result(sent: Message, response: Option<Message>) -> (r: Result<
    Neighbor,
    MessageError,
>)
    ensures
        match response {
            Some(Message::LookupResult(n)) => r == Ok::<Neighbor, MessageError>(n),
            _ => r == Err::<Neighbor, MessageError>(
                MessageError::UnexpectedResponse(sent, response),
            ),
        },
{
    match response {
        Some(Message::LookupResult(n)) => Ok(n),
        _ => Err(MessageError::UnexpectedResponse(sent, response)),
    }
}

/// The answer a `GetPredecessor` request owes.
pub fn expect_predecessor_response(sent: Message, response: Option<Message>) -> (r: Result<
    Option<Neighbor>,
    MessageError,
>)
    ensures
        match response {
            Some(Message::PredecessorResponse(n)) => r == Ok::<Option<Neighbor>, MessageError>(n),
            _ => r == Err::<Option<Neighbor>, MessageError>(
                MessageError::UnexpectedResponse(sent, response),
            ),
        },
{
    match response {
        Some(Message::PredecessorResponse(n)) => Ok(n),
        _ => Err(MessageError::UnexpectedResponse(sent, response)),
    }
}

/// The answer a `GetSuccessor` request owes.
pub fn expect_successor_response(sent: Message, response: Option<Message>) -> (r: Result<
    Neighbor,
    MessageError,
>)
    ensures
        match response {
            Some(Message::SuccessorResponse(n)) => r == Ok::<Neighbor, MessageError>(n),
            _ => r == Err::<Neighbor, MessageError>(
                MessageError::UnexpectedResponse(sent, response),
            ),
        },
{
    match response {
        Some(Message::SuccessorResponse(n)) => Ok(n),
        _ => Err(MessageError::UnexpectedResponse(sent, response)),
    }
}

/// Fire-and-forget requests owe no answer: any answer is unexpected.
pub fn expect_no_response(sent: Message, response: Option<Message>) -> (r: Result<
    (),
    MessageError,
>)
    ensures
        match response {
            None => r == Ok::<(), MessageError>(()),
            Some(_) => r == Err::<(), MessageError>(
                MessageError::UnexpectedResponse(sent, response),
            ),
        },
{
    match response {
        None => Ok(()),
        Some(_) => Err(MessageError::UnexpectedResponse(sent, response)),
    }
}

} // verus!
