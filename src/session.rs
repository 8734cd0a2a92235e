use vstd::prelude::*;

use crate::document::{moved, tokens_view, DocumentStore, Token, TokenView};
use crate::presence::{presence_step, PresenceCounter, PresenceEvent};

verus! {

/// A client's request to move a token. `version` is carried along to the
/// other sessions and not checked.
#[derive(Clone, Copy, Debug, PartialEq, Eq, Structural)]
pub struct MoveRequest {
    pub id: usize,
    pub version: usize,
    pub x: u32,
    pub y: u32,
}

/// What a newly connected session causes: the whole document, sent to that
/// session alone, and the new count of sessions, announced to every session.
pub struct Greeting {
    pub words: Vec<Token>,
    pub poets: usize,
}

/// The document after a move message: `None` stands for a payload that could
/// not be read.
pub open spec fn after_move(doc: Seq<TokenView>, request: Option<MoveRequest>) -> Seq<
    TokenView,
> {
    match request {
        Some(m) => if m.id < doc.len() {
            moved(doc, m.id as int, m.x, m.y)
        } else {
            doc
        },
        None => doc,
    }
}

/// The move relayed to the other sessions after a move message, if any.
pub open spec fn relayed_move(doc: Seq<TokenView>, request: Option<MoveRequest>) -> Option<
    MoveRequest,
> {
    match request {
        Some(m) => if m.id < doc.len() {
            Some(m)
        } else {
            None
        },
        None => None,
    }
}

/// A session connected: it receives the current document, and the count of
/// sessions goes up by one.
pub fn on_connect(store: &DocumentStore, presence: &mut PresenceCounter) -> (r: Greeting)
    ensures
        tokens_view(r.words@) == store@,
        final(presence)@ == presence_step(old(presence)@, PresenceEvent::Connect),
        r.poets == final(presence)@,
{
    let words = store.snapshot();
    let poets = presence.connect();
    Greeting { words, poets }
}

/// A session sent a move: an accepted one is applied and returned, to be
/// relayed to every other session; a payload that could not be read, or one
/// naming no token, is dropped without any change.
pub fn on_move(store: &mut DocumentStore, request: Option<MoveRequest>) -> (r: Option<MoveRequest>)
    requires
        old(store).well_formed(),
    ensures
        final(store).well_formed(),
        final(store)@ == after_move(old(store)@, request),
        r == relayed_move(old(store)@, request),
{
    match request {
        Some(m) => match store.apply_move(m.id, m.x, m.y) {
            Ok(_) => Some(m),
            Err(_) => None,
        },
        None => None,
    }
}

/// A session closed: the count of sessions goes down by one, and the new count
/// is returned, to be announced to the remaining sessions.
pub fn on_disconnect(presence: &mut PresenceCounter) -> (r: usize)
    ensures
        final(presence)@ == presence_step(old(presence)@, PresenceEvent::Disconnect),
        r == final(presence)@,
{
    presence.disconnect()
}

/// A move that names no token leaves the document as it was and is relayed
/// to nobody.
pub proof fn unknown_token_moves_nothing(doc: Seq<TokenView>, request: MoveRequest)
    requires
        request.id >= doc.len(),
    ensures
        after_move(doc, Some(request)) == doc,
        relayed_move(doc, Some(request)) is None,
{
}

} // verus!
