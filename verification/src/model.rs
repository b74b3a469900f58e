//! A room together with its durable store, as one mathematical value, and
//! what holds of it.
//!
//! The store is taken as the room relies on it: a value written under the
//! room's key is the value read next, and after a full wipe nothing is read.
//! Each transition below is what the room's handler and the host's part
//! together make of the pair.

use crate::attachment::{AttachmentView, WebsocketAttachment};
use crate::game_state::{current_state, UserView};
use crate::keyed::{
    as_map, distinct, has_key, lemma_as_map, lemma_map_len, lemma_put, lemma_without, position,
    put, without,
};
use crate::request::first_value;
use crate::session::{sockets, SessionView};
use crate::sync::{fetch_plan, leaves, rebuilt, Departure};
use vstd::prelude::*;

verus! {

/// One room and what its durable store holds under the room's key.
pub struct Room<W> {
    /// The persisted state; `None` where nothing is stored.
    pub stored: Option<Map<Seq<char>, UserView>>,
    /// The registry, as [`crate::sync::SillySync::sessions`] gives it.
    pub sessions: Seq<(Seq<char>, SessionView<W>)>,
}

impl<W> Room<W> {
    /// At most one session per client identifier.
    pub open spec fn valid(self) -> bool {
        distinct(self.sessions)
    }

    /// What a plain fetch answers.
    pub open spec fn fetched(self) -> Map<Seq<char>, UserView> {
        current_state(self.stored)
    }

    /// The room after a connection with attachment `meta` was accepted.
    pub open spec fn connected(self, ws: W, meta: AttachmentView) -> Room<W> {
        Room { stored: self.stored, sessions: put(self.sessions, meta.id, SessionView { ws, meta }) }
    }

    /// The room after a message with the decoded payload `payload` was
    /// handled and the host has persisted the update.
    pub open spec fn messaged(self, payload: Map<Seq<char>, UserView>) -> Room<W> {
        Room { stored: Some(payload), sessions: self.sessions }
    }

    /// The connections that hear of an accepted message.
    pub open spec fn message_recipients(self) -> Seq<W> {
        sockets(self.sessions)
    }

    /// The room after the connection of client `id` closed or failed and the
    /// host has done what the room asked for: wiped the store where nobody
    /// is left, persisted the trimmed state where somebody is.
    pub open spec fn departed(self, id: Seq<char>) -> Room<W> {
        let rest = without(self.sessions, id);
        if rest.len() == 0 {
            Room { stored: None, sessions: rest }
        } else {
            Room { stored: Some(current_state(self.stored).remove(id)), sessions: rest }
        }
    }

    /// The connections that hear of the departure of client `id`.
    pub open spec fn departure_recipients(self, id: Seq<char>) -> Seq<W> {
        sockets(without(self.sessions, id))
    }
}

/// The inherited connection `entry` carries an attachment for client `id`.
pub open spec fn carries<W>(entry: (W, Option<WebsocketAttachment>), id: Seq<char>) -> bool {
    entry.1 matches Some(meta) && meta.id@ == id
}

/// Some inherited connection carries an attachment for client `id`.
pub open spec fn announced<W>(inherited: Seq<(W, Option<WebsocketAttachment>)>, id: Seq<char>) -> bool {
    exists|i: int| 0 <= i < inherited.len() && carries(#[trigger] inherited[i], id)
}

/// The registry rebuilt from inherited connections holds at most one session
/// per client identifier.
pub proof fn lemma_rebuilt_distinct<W>(inherited: Seq<(W, Option<WebsocketAttachment>)>)
    ensures
        distinct(rebuilt(inherited)),
    decreases inherited.len(),
{
    if inherited.len() > 0 {
        lemma_rebuilt_distinct(inherited.drop_last());
        match inherited.last().1 {
            Some(meta) => {
                lemma_put(
                    rebuilt(inherited.drop_last()),
                    meta.id@,
                    SessionView { ws: inherited.last().0, meta: meta@ },
                );
            },
            None => {},
        }
    }
}

/// A client is in the rebuilt registry exactly if some inherited connection
/// carries an attachment for it.
pub proof fn lemma_rebuilt_members<W>(inherited: Seq<(W, Option<WebsocketAttachment>)>, id: Seq<char>)
    ensures
        has_key(rebuilt(inherited), id) <==> announced(inherited, id),
    decreases inherited.len(),
{
    if inherited.len() > 0 {
        let front = inherited.drop_last();
        let last = inherited.last();
        let n = inherited.len() - 1;
        lemma_rebuilt_members(front, id);
        lemma_rebuilt_distinct(front);
        if announced(front, id) {
            let i = choose|i: int| 0 <= i < front.len() && carries(#[trigger] front[i], id);
            assert(carries(inherited[i], id));
        }
        if announced(inherited, id) && !carries(last, id) {
            let i = choose|i: int| 0 <= i < inherited.len() && carries(#[trigger] inherited[i], id);
            assert(carries(front[i], id));
        }
        if carries(last, id) {
            assert(carries(inherited[n], id));
        }
        match last.1 {
            Some(meta) => {
                let session = SessionView { ws: last.0, meta: meta@ };
                lemma_put(rebuilt(front), meta.id@, session);
                lemma_as_map(rebuilt(front));
                lemma_as_map(rebuilt(inherited));
                assert(as_map(rebuilt(inherited)).contains_key(id) <==> (id == meta.id@ || as_map(
                    rebuilt(front),
                ).contains_key(id)));
            },
            None => {},
        }
    }
}

/// The rebuilt registry holds, for a client, the last inherited connection
/// that carries an attachment for it, with that attachment.
pub proof fn lemma_rebuilt_session<W>(
    inherited: Seq<(W, Option<WebsocketAttachment>)>,
    i: int,
    id: Seq<char>,
)
    requires
        0 <= i < inherited.len(),
        carries(inherited[i], id),
        forall|j: int| i < j < inherited.len() ==> !carries(#[trigger] inherited[j], id),
    ensures
        as_map(rebuilt(inherited)).contains_key(id),
        as_map(rebuilt(inherited))[id] == (SessionView {
            ws: inherited[i].0,
            meta: inherited[i].1->0@,
        }),
    decreases inherited.len(),
{
    let front = inherited.drop_last();
    let last = inherited.last();
    let n = inherited.len() - 1;
    lemma_rebuilt_distinct(front);
    if i < n {
        assert(front[i] == inherited[i]);
        assert forall|j: int| i < j < front.len() implies !carries(#[trigger] front[j], id) by {
            assert(front[j] == inherited[j]);
        }
        lemma_rebuilt_session(front, i, id);
        assert(!carries(inherited[n], id));
    }
    match last.1 {
        Some(meta) => {
            lemma_put(rebuilt(front), meta.id@, SessionView { ws: last.0, meta: meta@ });
        },
        None => {},
    }
}

/// Every transition keeps the registry at one session per client identifier.
pub proof fn lemma_one_session_per_client<W>(
    room: Room<W>,
    ws: W,
    meta: AttachmentView,
    payload: Map<Seq<char>, UserView>,
    id: Seq<char>,
)
    requires
        room.valid(),
    ensures
        room.connected(ws, meta).valid(),
        room.messaged(payload).valid(),
        room.departed(id).valid(),
{
    lemma_put(room.sessions, meta.id, SessionView { ws, meta });
    lemma_without(room.sessions, id);
}

/// After a message was accepted, a plain fetch answers exactly its payload,
/// whatever was stored before: the last write wins and nothing is merged.
pub proof fn lemma_fetch_answers_last_accepted<W>(
    room: Room<W>,
    earlier: Map<Seq<char>, UserView>,
    payload: Map<Seq<char>, UserView>,
)
    ensures
        room.messaged(payload).fetched() == payload,
        room.messaged(earlier).messaged(payload).fetched() == payload,
        room.messaged(payload).sessions == room.sessions,
{
}

/// When the last remaining session disconnects, the registry is empty and a
/// plain fetch answers the empty state.
pub proof fn lemma_last_departure_resets<W>(room: Room<W>, id: Seq<char>)
    requires
        room.valid(),
        room.sessions.len() == 1,
        has_key(room.sessions, id),
    ensures
        room.departed(id).sessions.len() == 0,
        room.departed(id).stored is None,
        room.departed(id).fetched() == Map::<Seq<char>, UserView>::empty(),
{
    lemma_without(room.sessions, id);
}

/// When a session disconnects and others remain, the departed client's
/// record, and no other, leaves the room state; the remaining sessions are
/// the others, unchanged and in their order, and they are the ones that hear
/// of the trimmed state.
pub proof fn lemma_departure_trims<W>(room: Room<W>, id: Seq<char>)
    requires
        room.valid(),
        has_key(room.sessions, id),
        room.sessions.len() > 1,
    ensures
        room.departed(id).fetched() == room.fetched().remove(id),
        !room.departed(id).fetched().contains_key(id),
        forall|other: Seq<char>|
            other != id ==> (#[trigger] room.departed(id).fetched().contains_key(other)
                == room.fetched().contains_key(other)),
        forall|other: Seq<char>|
            other != id && room.fetched().contains_key(other) ==> #[trigger] room.departed(
                id,
            ).fetched()[other] == room.fetched()[other],
        room.departed(id).sessions == room.sessions.remove(position(room.sessions, id)),
        as_map(room.departed(id).sessions) == as_map(room.sessions).remove(id),
        !has_key(room.departed(id).sessions, id),
        room.departure_recipients(id) == sockets(room.departed(id).sessions),
        room.departure_recipients(id).len() == room.sessions.len() - 1,
{
    lemma_without(room.sessions, id);
}

/// What [`crate::sync::SillySync::handle_close_or_error`] makes of the
/// registry, and what it asks of the host, is the departure of the client:
/// `Teardown` leaves nothing stored, and `Trim` names the client whose
/// record [`crate::sync::SillySync::trim`] then takes out of the stored state.
pub proof fn lemma_close_is_departure<W>(
    room: Room<W>,
    meta: WebsocketAttachment,
    after: Seq<(Seq<char>, SessionView<W>)>,
    answer: Departure,
)
    requires
        leaves(room.sessions, Some(meta), after, answer),
    ensures
        after == room.departed(meta.id@).sessions,
        !(answer is Ignored),
        answer is Teardown ==> room.departed(meta.id@).stored is None,
        answer matches Departure::Trim(id) ==> room.departed(meta.id@).stored == Some(
            current_state(room.stored).remove(id@),
        ) && room.departure_recipients(meta.id@) == sockets(after),
{
}

/// A connection accepted under an identifier that is already registered
/// takes the place of the earlier session: the registry does not grow, the
/// other sessions stay, and the room state is as it was.
pub proof fn lemma_reconnect_replaces<W>(room: Room<W>, ws: W, meta: AttachmentView)
    requires
        room.valid(),
        has_key(room.sessions, meta.id),
    ensures
        room.connected(ws, meta).sessions.len() == room.sessions.len(),
        as_map(room.connected(ws, meta).sessions) == as_map(room.sessions).insert(
            meta.id,
            SessionView { ws, meta },
        ),
        as_map(room.connected(ws, meta).sessions).len() == as_map(room.sessions).len(),
        room.connected(ws, meta).stored == room.stored,
        room.connected(ws, meta).fetched() == room.fetched(),
{
    lemma_put(room.sessions, meta.id, SessionView { ws, meta });
    lemma_map_len(room.sessions);
    lemma_map_len(room.connected(ws, meta).sessions);
}

/// A connection accepted under a new identifier adds one session and leaves
/// the room state as it was.
pub proof fn lemma_connect_adds<W>(room: Room<W>, ws: W, meta: AttachmentView)
    requires
        room.valid(),
        !has_key(room.sessions, meta.id),
    ensures
        room.connected(ws, meta).sessions == room.sessions.push((meta.id, SessionView { ws, meta })),
        room.connected(ws, meta).fetched() == room.fetched(),
{
}

/// An upgrade request is rejected exactly when none of its query pairs is
/// named `client_id`; an accepted one carries the value of the first.
pub proof fn lemma_upgrade_needs_client_id(pairs: Seq<(Seq<char>, Seq<char>)>)
    ensures
        fetch_plan(Some("websocket"@), pairs) is Err <==> forall|i: int|
            0 <= i < pairs.len() ==> (#[trigger] pairs[i]).0 != "client_id"@,
        fetch_plan(Some("websocket"@), pairs) is Err ==> fetch_plan(Some("websocket"@), pairs)
            == Err::<Option<AttachmentView>, _>(crate::error::RoomError::MissingClientId),
        fetch_plan(Some("websocket"@), pairs) matches Ok(plan) ==> plan matches Some(meta)
            && first_value(pairs, "client_id"@) == Some(meta.id) && meta.name is None,
{
}

} // verus!
