//! The shared state of a room: one record per client.

use crate::id_map::IdMap;
use vstd::prelude::*;

verus! {

/// Storage key under which a room keeps its state.
pub const GAME_STATE_KEY: &'static str = "GAME_STATE";

/// What a room knows of one client.  The room carries these records and
/// never looks inside them.
#[derive(Debug)]
pub struct User {
    /// Horizontal position: the bit pattern of a single-precision number.
    pub x: u32,
    /// Vertical position: the bit pattern of a single-precision number.
    pub y: u32,
    /// The avatar's name.
    pub avatar: String,
}

/// The mathematical value of a [`User`].
pub struct UserView {
    pub x: u32,
    pub y: u32,
    pub avatar: Seq<char>,
}

impl View for User {
    type V = UserView;

    open spec fn view(&self) -> UserView {
        UserView { x: self.x, y: self.y, avatar: self.avatar@ }
    }
}

impl User {
    /// A record with the given position bits and avatar.
    pub fn new(x: u32, y: u32, avatar: String) -> (u: Self)
        ensures
            u@ == (UserView { x, y, avatar: avatar@ }),
    {
        User { x, y, avatar }
    }
}

impl Default for User {
    /// The record at position bits zero with an empty avatar name.
    fn default() -> (u: Self)
        ensures
            u@ == (UserView { x: 0, y: 0, avatar: Seq::empty() }),
    {
        User { x: 0, y: 0, avatar: String::new() }
    }
}

impl Clone for User {
    fn clone(&self) -> (u: Self)
        ensures
            u@ == self@,
    {
        User { x: self.x, y: self.y, avatar: self.avatar.clone() }
    }
}

/// The state of a room: for each client identifier at most one record.
pub struct GameState {
    /// The records by client identifier.
    pub users: IdMap<User>,
}

impl View for GameState {
    type V = Map<Seq<char>, UserView>;

    /// The records by client identifier; their order has no meaning.
    open spec fn view(&self) -> Map<Seq<char>, UserView> {
        self.users@
    }
}

impl GameState {
    /// The state of a room that nobody has written to.
    pub fn new() -> (s: Self)
        ensures
            s@ == Map::<Seq<char>, UserView>::empty(),
    {
        GameState { users: IdMap::new() }
    }
}

impl Default for GameState {
    /// The state of a room that nobody has written to.
    fn default() -> (s: Self)
        ensures
            s@ == Map::<Seq<char>, UserView>::empty(),
    {
        GameState::new()
    }
}

/// What a plain fetch answers when the durable store holds `stored` under the
/// room's key: the stored state, or the empty state when nothing is stored.
pub open spec fn current_state(stored: Option<Map<Seq<char>, UserView>>) -> Map<
    Seq<char>,
    UserView,
> {
    match stored {
        Some(state) => state,
        None => Map::empty(),
    }
}

/// What a read of the room's key in the durable store gave.
pub enum Stored {
    /// The state that is stored.
    Found(GameState),
    /// Nothing is stored under the key.
    Missing,
    /// The store could not be read.
    Failed,
}

impl Stored {
    /// The stored state as far as the read has shown it: `None` where nothing
    /// is stored, and where the read failed.
    pub open spec fn known(self) -> Option<Map<Seq<char>, UserView>> {
        match self {
            Stored::Found(state) => Some(state@),
            Stored::Missing => None,
            Stored::Failed => None,
        }
    }
}

} // verus!
