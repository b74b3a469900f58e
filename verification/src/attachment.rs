//! The metadata that travels with a connection.

use vstd::prelude::*;

verus! {

/// What a connection carries about its client.  It is written onto the
/// connection when the connection is accepted and never changed afterwards, so
/// that a freshly started room can rebuild its registry from the connections
/// it inherits.
#[derive(Debug)]
pub struct WebsocketAttachment {
    /// The client identifier.
    pub id: String,
    /// The display name, if the client gave one.
    pub name: Option<String>,
}

/// The mathematical value of a [`WebsocketAttachment`].
pub struct AttachmentView {
    pub id: Seq<char>,
    pub name: Option<Seq<char>>,
}

impl View for WebsocketAttachment {
    type V = AttachmentView;

    open spec fn view(&self) -> AttachmentView {
        AttachmentView {
            id: self.id@,
            name: match self.name {
                Some(n) => Some(n@),
                None => None,
            },
        }
    }
}

impl WebsocketAttachment {
    /// The attachment of a client that has given no display name.
    pub fn new(id: String) -> (a: Self)
        ensures
            a@ == (AttachmentView { id: id@, name: None }),
    {
        WebsocketAttachment { id, name: None }
    }
}

impl Default for WebsocketAttachment {
    /// The attachment with an empty identifier and no display name.
    fn default() -> (a: Self)
        ensures
            a@ == (AttachmentView { id: Seq::empty(), name: None }),
    {
        WebsocketAttachment { id: String::new(), name: None }
    }
}

impl Clone for WebsocketAttachment {
    fn clone(&self) -> (a: Self)
        ensures
            a@ == self@,
    {
        let name = match &self.name {
            Some(n) => Some(n.clone()),
            None => None,
        };
        WebsocketAttachment { id: self.id.clone(), name }
    }
}

} // verus!
