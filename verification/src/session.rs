//! A live connection and what it carries.

use crate::attachment::{AttachmentView, WebsocketAttachment};
use vstd::prelude::*;

verus! {

/// One connected client: the connection, of whatever type the host uses for
/// connections, and the attachment written onto it.
pub struct Session<W> {
    /// The connection to the client.
    pub ws: W,
    /// The attachment of the connection.
    pub meta: WebsocketAttachment,
}

/// The mathematical value of a [`Session`].
pub struct SessionView<W> {
    pub ws: W,
    pub meta: AttachmentView,
}

impl<W> View for Session<W> {
    type V = SessionView<W>;

    open spec fn view(&self) -> SessionView<W> {
        SessionView { ws: self.ws, meta: self.meta@ }
    }
}

/// The connections of `sessions`, in order.
pub open spec fn sockets<W>(sessions: Seq<(Seq<char>, SessionView<W>)>) -> Seq<W> {
    Seq::new(sessions.len(), |i: int| sessions[i].1.ws)
}

} // verus!
