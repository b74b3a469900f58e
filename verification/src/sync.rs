//! The room: the single owner of one room's connections, and the one that
//! decides what happens to the room's state.
//!
//! A room never touches the durable store or a connection itself.  Each
//! handler takes what the host has read and answers with what the host has to
//! do next: which state to write, which connections to send it to, whether
//! to wipe the store.  The host carries that out before it hands the room the
//! next event, so the events of one room are handled one at a time.  A store
//! call that fails fails the event; a send that fails does not.

use crate::attachment::{AttachmentView, WebsocketAttachment};
use crate::error::RoomError;
use crate::game_state::{current_state, GameState, Stored, GAME_STATE_KEY};
use crate::id_map::IdMap;
use crate::keyed::{as_map, distinct, has_key, put, without};
use crate::request::{asks_for_websocket, find_value, first_value, is_upgrade, parse_query, query_pairs};
use crate::session::{sockets, Session, SessionView};
use vstd::prelude::*;

verus! {

/// What the host does with a request, once the room has looked at it.
#[derive(Debug)]
pub enum FetchAction {
    /// A plain fetch: read the room's state from the durable store, hand
    /// what the read gave to [`SillySync::fetch_state`], and answer with the
    /// result.
    ReadState,
    /// An upgrade: open a connection, write this attachment onto it, hand
    /// both to [`SillySync::accept`], and answer with the client's end.
    Upgrade(WebsocketAttachment),
}

/// A new room state and the connections that are to hear of it.  The host
/// writes `state` under `key`, reports to `broadcast` how the write went,
/// and sends the state, encoded once, to each connection it gets back.
pub struct Update<'a, W> {
    /// The storage key to write under: always [`GAME_STATE_KEY`].
    pub key: &'static str,
    /// The state to write and to send.
    pub state: GameState,
    /// The connections to send it to, held back until the write is done.
    pub broadcast: Broadcast<'a, W>,
}

/// The connections that wait for a write to the durable store.
pub struct Broadcast<'a, W> {
    recipients: Vec<&'a W>,
}

impl<'a, W> Broadcast<'a, W> {
    /// The connections that wait, in the order of the registry.
    pub closed spec fn recipients(&self) -> Seq<W> {
        targets(self.recipients@)
    }

    /// Hands out the connections once the state has been written.  After a
    /// failed write nothing is sent and the event fails.  The host sends to
    /// each connection in order; a send that fails is passed over, the
    /// remaining sends still happen, and the session stays registered.
    pub fn after_write(self, written: bool) -> (r: Result<Vec<&'a W>, RoomError>)
        ensures
            match r {
                Ok(recipients) => written && targets(recipients@) == self.recipients(),
                Err(e) => !written && e == RoomError::Storage,
            },
    {
        if written {
            Ok(self.recipients)
        } else {
            Err(RoomError::Storage)
        }
    }
}

/// What the host does after a connection has gone.
#[derive(Debug)]
pub enum Departure {
    /// The connection carried no attachment: there is nothing to do.
    Ignored,
    /// The last session has left: delete everything the room has persisted.
    Teardown,
    /// Others remain: read the room's state from the durable store and hand
    /// what the read gave to [`SillySync::trim`] with this client identifier.
    Trim(String),
}

/// The connections behind a list of borrowed connections.
pub open spec fn targets<W>(recipients: Seq<&W>) -> Seq<W> {
    Seq::new(recipients.len(), |i: int| *recipients[i])
}

/// The registry that a room derives from the connections it inherits: each
/// connection with a readable attachment is registered under the identifier
/// of that attachment, a later one replacing an earlier one with the same
/// identifier; a connection without one is left out.
pub open spec fn rebuilt<W>(inherited: Seq<(W, Option<WebsocketAttachment>)>) -> Seq<
    (Seq<char>, SessionView<W>),
>
    decreases inherited.len(),
{
    if inherited.len() == 0 {
        Seq::empty()
    } else {
        let earlier = rebuilt(inherited.drop_last());
        match inherited.last().1 {
            Some(meta) => put(
                earlier,
                meta.id@,
                SessionView { ws: inherited.last().0, meta: meta@ },
            ),
            None => earlier,
        }
    }
}

/// What the going of a connection with the given attachment makes of the
/// registry `before`.  Without an attachment nothing changes.  With one, the
/// session under its identifier leaves the registry; the answer is
/// `Teardown` where no session is left and `Trim` with that identifier where
/// one is.
pub open spec fn leaves<W>(
    before: Seq<(Seq<char>, SessionView<W>)>,
    attachment: Option<WebsocketAttachment>,
    after: Seq<(Seq<char>, SessionView<W>)>,
    answer: Departure,
) -> bool {
    match attachment {
        None => after == before && answer is Ignored,
        Some(meta) => {
            &&& after == without(before, meta.id@)
            &&& if after.len() == 0 {
                answer is Teardown
            } else {
                answer matches Departure::Trim(id) && id@ == meta.id@
            }
        },
    }
}

/// What [`SillySync::fetch`] answers for a request with the given `Upgrade`
/// header value and decoded query pairs.
pub open spec fn fetch_plan(upgrade: Option<Seq<char>>, pairs: Seq<(Seq<char>, Seq<char>)>) -> Result<
    Option<AttachmentView>,
    RoomError,
> {
    if !asks_for_websocket(upgrade) {
        Ok(None)
    } else {
        match first_value(pairs, "client_id"@) {
            Some(id) => Ok(Some(AttachmentView { id, name: None })),
            None => Err(RoomError::MissingClientId),
        }
    }
}

/// The view of a request's `Upgrade` header value.
pub open spec fn header_view(upgrade: Option<String>) -> Option<Seq<char>> {
    match upgrade {
        Some(h) => Some(h@),
        None => None,
    }
}

/// The view of a fetch result: for an upgrade the attachment to register,
/// for a plain fetch nothing.
pub open spec fn plan_view(r: Result<FetchAction, RoomError>) -> Result<
    Option<AttachmentView>,
    RoomError,
> {
    match r {
        Ok(FetchAction::ReadState) => Ok(None),
        Ok(FetchAction::Upgrade(meta)) => Ok(Some(meta@)),
        Err(e) => Err(e),
    }
}

/// One room.  `W` is the host's type of a connection.
pub struct SillySync<W> {
    sessions: IdMap<Session<W>>,
}

impl<W> SillySync<W> {
    /// The registry: the sessions by client identifier, in the order in which
    /// their identifiers were first registered.
    pub closed spec fn sessions(&self) -> Seq<(Seq<char>, SessionView<W>)> {
        self.sessions.entries()
    }

    /// A room over the connections that the host already holds open for it,
    /// each with the attachment read off it (`None` where none could be read).
    pub fn new(inherited: Vec<(W, Option<WebsocketAttachment>)>) -> (room: Self)
        ensures
            room.sessions() == rebuilt(inherited@),
            distinct(room.sessions()),
    {
        let mut sessions: IdMap<Session<W>> = IdMap::new();
        let ghost all = inherited@;
        assert(all.take(0) =~= Seq::empty());
        for entry in it: inherited
            invariant
                it.seq() == all,
                sessions.entries() == rebuilt(all.take(it.index() as int)),
                distinct(sessions.entries()),
        {
            proof {
                let n = it.index() as int;
                assert(all.take(n + 1).drop_last() =~= all.take(n));
                assert(all.take(n + 1).last() == entry);
            }
            let (ws, attachment) = entry;
            match attachment {
                Some(meta) => {
                    let id = meta.id.clone();
                    sessions.insert(id, Session { ws, meta });
                },
                None => {},
            }
        }
        assert(all.take(all.len() as int) =~= all);
        SillySync { sessions }
    }

    /// The number of registered sessions.
    pub fn len(&self) -> (n: usize)
        ensures
            n == self.sessions().len(),
            distinct(self.sessions()),
    {
        self.sessions.len()
    }

    /// Whether no session is registered.
    pub fn is_empty(&self) -> (b: bool)
        ensures
            b == (self.sessions().len() == 0),
    {
        self.sessions.is_empty()
    }

    /// The session registered under `id`, if there is one.
    pub fn session(&self, id: &String) -> (r: Option<&Session<W>>)
        ensures
            match r {
                Some(s) => as_map(self.sessions()).contains_key(id@) && s@
                    == as_map(self.sessions())[id@],
                None => !as_map(self.sessions()).contains_key(id@),
            },
    {
        self.sessions.get(id)
    }

    /// Decides what a request, given by its decoded query pairs, leads to.
    /// A request that does not ask for a WebSocket is a plain fetch.  One
    /// that does must name its client in a `client_id` parameter and is
    /// rejected otherwise; the first such parameter counts.
    pub fn fetch_action(upgrade: &Option<String>, pairs: &Vec<(String, String)>) -> (r: Result<
        FetchAction,
        RoomError,
    >)
        ensures
            plan_view(r) == fetch_plan(header_view(*upgrade), pairs.deep_view()),
    {
        if is_upgrade(upgrade) {
            match find_value(pairs, "client_id") {
                Some(id) => Ok(FetchAction::Upgrade(WebsocketAttachment::new(id))),
                None => Err(RoomError::MissingClientId),
            }
        } else {
            Ok(FetchAction::ReadState)
        }
    }

    /// Decides what a request leads to, from the value of its `Upgrade`
    /// header and its query string.  The room is left as it is: a session is
    /// registered only by [`SillySync::accept`].
    pub fn fetch(&self, upgrade: &Option<String>, query: &str) -> (r: Result<FetchAction, RoomError>)
        ensures
            plan_view(r) == fetch_plan(header_view(*upgrade), query_pairs(query@)),
    {
        if is_upgrade(upgrade) {
            let pairs = parse_query(query);
            Self::fetch_action(upgrade, &pairs)
        } else {
            Ok(FetchAction::ReadState)
        }
    }

    /// The answer to a plain fetch, from what the read of the room's key
    /// gave: the stored state as it is, or the empty state where nothing is
    /// stored or the read failed.
    pub fn fetch_state(stored: Stored) -> (state: GameState)
        ensures
            state@ == current_state(stored.known()),
    {
        match stored {
            Stored::Found(state) => state,
            Stored::Missing => GameState::new(),
            Stored::Failed => GameState::new(),
        }
    }

    /// Registers a connection under the identifier of its attachment.  A
    /// session already registered under that identifier is replaced and
    /// handed back: the last connection wins.
    pub fn accept(&mut self, ws: W, meta: WebsocketAttachment) -> (replaced: Option<Session<W>>)
        ensures
            final(self).sessions() == put(
                old(self).sessions(),
                meta.id@,
                SessionView { ws, meta: meta@ },
            ),
            distinct(final(self).sessions()),
            replaced is Some == has_key(old(self).sessions(), meta.id@),
            replaced matches Some(s) ==> s@ == as_map(old(self).sessions())[meta.id@],
    {
        let id = meta.id.clone();
        self.sessions.insert(id, Session { ws, meta })
    }

    /// The connections of all registered sessions, in the order of the
    /// registry.
    pub fn broadcast(&self) -> (recipients: Vec<&W>)
        ensures
            targets(recipients@) == sockets(self.sessions()),
    {
        let mut recipients: Vec<&W> = Vec::new();
        let n = self.sessions.len();
        let mut i: usize = 0;
        while i < n
            invariant
                i <= n,
                n == self.sessions.entries().len(),
                recipients.len() == i,
                forall|j: int| 0 <= j < i ==> *(#[trigger] recipients[j]) == self.sessions.entries()[j].1.ws,
            decreases n - i,
        {
            match self.sessions.entry(i) {
                Some(e) => {
                    recipients.push(&e.1.ws);
                },
                None => {},
            }
            i = i + 1;
        }
        assert(targets(recipients@) =~= sockets(self.sessions()));
        recipients
    }

    /// Handles an inbound message, given as the room state that its payload
    /// decodes to (`None` where it does not decode).  A decoded payload
    /// replaces the whole room state, whatever that was, and goes to every
    /// registered session.  An undecodable one is an error and changes
    /// nothing.
    pub fn websocket_message(&self, payload: Option<GameState>) -> (r: Result<Update<'_, W>, RoomError>)
        ensures
            match r {
                Ok(update) => payload is Some && update.key@ == GAME_STATE_KEY@ && update.state@
                    == payload->0@ && update.broadcast.recipients() == sockets(self.sessions()),
                Err(e) => payload is None && e == RoomError::MalformedMessage,
            },
    {
        match payload {
            Some(state) => Ok(
                Update {
                    key: GAME_STATE_KEY,
                    state,
                    broadcast: Broadcast { recipients: self.broadcast() },
                },
            ),
            None => Err(RoomError::MalformedMessage),
        }
    }

    /// Removes the session of a connection that has closed or failed, found
    /// by the identifier in the connection's attachment, and says what is
    /// left to do.
    pub fn handle_close_or_error(&mut self, attachment: Option<WebsocketAttachment>) -> (r: Departure)
        ensures
            distinct(final(self).sessions()),
            leaves(old(self).sessions(), attachment, final(self).sessions(), r),
    {
        match attachment {
            Some(meta) => {
                self.sessions.remove(&meta.id);
                if self.sessions.is_empty() {
                    Departure::Teardown
                } else {
                    Departure::Trim(meta.id)
                }
            },
            None => {
                self.sessions.note_distinct();
                Departure::Ignored
            },
        }
    }

    /// Handles the close of a connection.  The close code, the reason and
    /// whether the close was clean make no difference.
    pub fn websocket_close(
        &mut self,
        attachment: Option<WebsocketAttachment>,
        _code: usize,
        _reason: String,
        _was_clean: bool,
    ) -> (r: Departure)
        ensures
            distinct(final(self).sessions()),
            leaves(old(self).sessions(), attachment, final(self).sessions(), r),
    {
        self.handle_close_or_error(attachment)
    }

    /// Handles the failure of a connection, as a close.
    pub fn websocket_error(&mut self, attachment: Option<WebsocketAttachment>) -> (r: Departure)
        ensures
            distinct(final(self).sessions()),
            leaves(old(self).sessions(), attachment, final(self).sessions(), r),
    {
        self.handle_close_or_error(attachment)
    }

    /// Drops the record of a departed client from the stored state (the empty
    /// state where nothing is stored) and addresses the result to every
    /// session that remains.  The other records stay as they are.  Where the
    /// store could not be read the event fails and nothing is written.
    pub fn trim(&self, stored: Stored, id: &String) -> (r: Result<Update<'_, W>, RoomError>)
        ensures
            match r {
                Ok(update) => !(stored is Failed) && update.key@ == GAME_STATE_KEY@ && update.state@
                    == current_state(stored.known()).remove(id@) && update.broadcast.recipients()
                    == sockets(self.sessions()),
                Err(e) => stored is Failed && e == RoomError::Storage,
            },
    {
        match stored {
            Stored::Failed => Err(RoomError::Storage),
            known => {
                let mut state = Self::fetch_state(known);
                state.users.remove(id);
                Ok(
                    Update {
                        key: GAME_STATE_KEY,
                        state,
                        broadcast: Broadcast { recipients: self.broadcast() },
                    },
                )
            },
        }
    }
}

} // verus!
