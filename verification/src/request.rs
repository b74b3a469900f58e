//! What the room reads from an incoming request.

use vstd::prelude::*;

verus! {

/// The `(name, value)` pairs that `form_urlencoded::parse` yields for a query
/// string, in the order in which they stand in it.
pub uninterp spec fn query_pairs(query: Seq<char>) -> Seq<(Seq<char>, Seq<char>)>;

/// The first value that `pairs` gives for `name`, if `name` occurs.
pub open spec fn first_value(pairs: Seq<(Seq<char>, Seq<char>)>, name: Seq<char>) -> Option<
    Seq<char>,
> {
    if exists|i: int| 0 <= i < pairs.len() && (#[trigger] pairs[i]).0 == name {
        let first = choose|i: int|
            0 <= i < pairs.len() && (#[trigger] pairs[i]).0 == name && forall|j: int|
                0 <= j < i ==> (#[trigger] pairs[j]).0 != name;
        Some(pairs[first].1)
    } else {
        None
    }
}

/// Whether the value of a request's `Upgrade` header asks for a WebSocket:
/// the header is present and reads exactly `websocket`.
pub open spec fn asks_for_websocket(upgrade: Option<Seq<char>>) -> bool {
    upgrade == Some("websocket"@)
}

/// Calls `form_urlencoded::parse` on the bytes of `query` and collects the
/// decoded pairs it yields.  Trusted: the result is what that function
/// yields for this query string, in order.
#[verifier::external_body]
pub(crate) fn parse_query(query: &str) -> (pairs: Vec<(String, String)>)
    ensures
        pairs.deep_view() == query_pairs(query@),
{
    url::form_urlencoded::parse(query.as_bytes()).into_owned().collect()
}

/// Whether a request with this `Upgrade` header value asks for a WebSocket.
pub fn is_upgrade(upgrade: &Option<String>) -> (b: bool)
    ensures
        b == asks_for_websocket(
            match *upgrade {
                Some(h) => Some(h@),
                None => None,
            },
        ),
{
    match upgrade {
        Some(header) => {
            let wanted = "websocket".to_owned();
            *header == wanted
        },
        None => false,
    }
}

/// The value of the first pair named `name`.
pub fn find_value(pairs: &Vec<(String, String)>, name: &str) -> (r: Option<String>)
    ensures
        match r {
            Some(v) => Some(v@),
            None => None,
        } == first_value(pairs.deep_view(), name@),
{
    let wanted = name.to_owned();
    let ghost view = pairs.deep_view();
    assert(view.len() == pairs.len());
    assert forall|i: int| 0 <= i < pairs.len() implies #[trigger] view[i] == (
        pairs[i].0@,
        pairs[i].1@,
    ) by {}
    let mut i: usize = 0;
    while i < pairs.len()
        invariant
            i <= pairs.len(),
            view == pairs.deep_view(),
            view.len() == pairs.len(),
            wanted@ == name@,
            forall|j: int| 0 <= j < pairs.len() ==> #[trigger] view[j] == (pairs[j].0@, pairs[j].1@),
            forall|j: int| 0 <= j < i ==> (#[trigger] view[j]).0 != name@,
        decreases pairs.len() - i,
    {
        if pairs[i].0 == wanted {
            proof {
                assert(view[i as int].0 == name@);
                let first = choose|k: int|
                    0 <= k < view.len() && (#[trigger] view[k]).0 == name@ && forall|j: int|
                        0 <= j < k ==> (#[trigger] view[j]).0 != name@;
                assert(first == i) by {
                    if first < i {
                        assert(view[first].0 != name@);
                    } else if i < first {
                        assert(view[i as int].0 != name@);
                    }
                }
            }
            return Some(pairs[i].1.clone());
        }
        i = i + 1;
    }
    None
}

/// The client identifier that a query string supplies: the value of its first
/// `client_id` parameter.
pub fn client_id(query: &str) -> (id: Option<String>)
    ensures
        match id {
            Some(v) => Some(v@),
            None => None,
        } == first_value(query_pairs(query@), "client_id"@),
{
    let pairs = parse_query(query);
    find_value(&pairs, "client_id")
}

} // verus!
