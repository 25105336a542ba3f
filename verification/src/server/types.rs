//! Values that travel between the hub, its sessions and its peers.

use crate::json::{json_document, json_text_members, parse_document, text_member};
use crate::text::same_text;
use vstd::prelude::*;

verus! {

/// The address a connection was accepted from, as the fronting proxy reports it.
#[derive(Debug, PartialEq, Eq)]
pub struct RealIP(String);

impl View for RealIP {
    type V = Seq<char>;

    closed spec fn view(&self) -> Seq<char> {
        self.0@
    }
}

impl Clone for RealIP {
    fn clone(&self) -> (copy: RealIP)
        ensures
            copy@ == self@,
    {
        RealIP(self.0.clone())
    }
}

impl RealIP {
    /// Wraps the text of the address header.
    pub fn new(address: String) -> (r: RealIP)
        ensures
            r@ == address@,
    {
        RealIP(address)
    }

    /// Gives the text back.
    pub fn into_inner(self) -> (address: String)
        ensures
            address@ == self@,
    {
        self.0
    }
}

/// An event fanned out to every live session of the hub.
#[derive(Debug, PartialEq, Eq)]
pub enum WebBroadcastEvent {
    /// A peer asked for a fleet-wide terminate; the field names that peer.
    RequestTerminate(String),
    /// The hub is shutting down.
    ServerQuit,
}

/// The value of a [`WebBroadcastEvent`].
pub enum BroadcastView {
    RequestTerminate(Seq<char>),
    ServerQuit,
}

impl View for WebBroadcastEvent {
    type V = BroadcastView;

    open spec fn view(&self) -> BroadcastView {
        match self {
            WebBroadcastEvent::RequestTerminate(invoker) => BroadcastView::RequestTerminate(
                invoker@,
            ),
            WebBroadcastEvent::ServerQuit => BroadcastView::ServerQuit,
        }
    }
}

impl Clone for WebBroadcastEvent {
    fn clone(&self) -> (copy: WebBroadcastEvent)
        ensures
            copy@ == self@,
    {
        match self {
            WebBroadcastEvent::RequestTerminate(invoker) => WebBroadcastEvent::RequestTerminate(
                invoker.clone(),
            ),
            WebBroadcastEvent::ServerQuit => WebBroadcastEvent::ServerQuit,
        }
    }
}

impl WebBroadcastEvent {
    /// Whether this event leaves the hub running.
    pub fn is_not_quit(self) -> (r: bool)
        ensures
            r == !(self is ServerQuit),
    {
        match self {
            WebBroadcastEvent::ServerQuit => false,
            WebBroadcastEvent::RequestTerminate(_) => true,
        }
    }
}

/// What a subscriber gets from the hub's bus.
#[derive(Debug, PartialEq, Eq)]
pub enum Received {
    /// The next event.
    Event(WebBroadcastEvent),
    /// The subscriber fell behind and missed events; the bus goes on.
    Lagged,
    /// The bus is gone: nobody is left to publish.
    Closed,
}

/// Decides whether the listener goes on accepting connections after what its
/// subscription to the bus has received: the announcement that the hub quits
/// stops it, and so does the end of the bus; any other event, and events
/// missed, do not.
pub fn keeps_serving(received: Received) -> (keep: bool)
    ensures
        keep == match received {
            Received::Event(e) => !(e is ServerQuit),
            Received::Lagged => true,
            Received::Closed => false,
        },
{
    match received {
        Received::Event(event) => event.is_not_quit(),
        Received::Lagged => true,
        Received::Closed => false,
    }
}

/// A message a peer sends to the hub, spelled on the wire as a JSON object
/// whose member `type` names the variant.
#[derive(Debug, PartialEq, Eq)]
pub enum WebData {
    /// The peer presents its identifier.
    Auth { uuid: String },
    /// The peer asks for a fleet-wide terminate.
    RequestTerminate,
}

/// The value of a [`WebData`].
pub enum WebDataView {
    Auth { uuid: Seq<char> },
    RequestTerminate,
}

impl View for WebData {
    type V = WebDataView;

    open spec fn view(&self) -> WebDataView {
        match self {
            WebData::Auth { uuid } => WebDataView::Auth { uuid: uuid@ },
            WebData::RequestTerminate => WebDataView::RequestTerminate,
        }
    }
}

impl Clone for WebData {
    fn clone(&self) -> (copy: WebData)
        ensures
            copy@ == self@,
    {
        match self {
            WebData::Auth { uuid } => WebData::Auth { uuid: uuid.clone() },
            WebData::RequestTerminate => WebData::RequestTerminate,
        }
    }
}

/// Why a text frame is not a message.
#[derive(Clone, Copy, Debug, PartialEq, Eq)]
pub enum ParseError {
    /// The text is not one JSON document.
    Syntax,
    /// The document has no text member `type`.
    Untagged,
    /// The member `type` names no message.
    UnknownType,
    /// An `Auth` message without a text member `uuid`.
    MissingIdentifier,
}

/// The message that a JSON object spells, given the text under its member
/// `type` and the text under its member `uuid`, where it has them.
pub open spec fn decode_fields(tag: Option<Seq<char>>, uuid: Option<Seq<char>>) -> Result<
    WebDataView,
    ParseError,
> {
    match tag {
        None => Err(ParseError::Untagged),
        Some(tag) => if tag == "Auth"@ {
            match uuid {
                Some(uuid) => Ok(WebDataView::Auth { uuid }),
                None => Err(ParseError::MissingIdentifier),
            }
        } else if tag == "RequestTerminate"@ {
            Ok(WebDataView::RequestTerminate)
        } else {
            Err(ParseError::UnknownType)
        },
    }
}

/// The text under a key, if there is one.
pub open spec fn member(members: Map<Seq<char>, Seq<char>>, key: Seq<char>) -> Option<Seq<char>> {
    if members.contains_key(key) {
        Some(members[key])
    } else {
        None
    }
}

/// The message that a document with these text members spells.
pub open spec fn decode_members(members: Map<Seq<char>, Seq<char>>) -> Result<
    WebDataView,
    ParseError,
> {
    decode_fields(member(members, "type"@), member(members, "uuid"@))
}

/// The message that a text frame spells. Members that a message does not
/// need are passed over; of members under one key the last counts.
pub open spec fn decode_text(text: Seq<char>) -> Result<WebDataView, ParseError> {
    match json_document(text) {
        Some(members) => decode_members(members),
        None => Err(ParseError::Syntax),
    }
}

/// Whether an executable decoding result stands for the given value.
pub open spec fn decoded_as(r: Result<WebData, ParseError>, v: Result<WebDataView, ParseError>) -> bool {
    match r {
        Ok(data) => v == Ok::<WebDataView, ParseError>(data@),
        Err(e) => v == Err::<WebDataView, ParseError>(e),
    }
}

/// The value of an optional text.
pub open spec fn text_view(text: Option<&str>) -> Option<Seq<char>> {
    match text {
        Some(text) => Some(text@),
        None => None,
    }
}

impl WebData {
    /// Reads a message off the two members that matter: the text under
    /// `type` names the message, the text under `uuid` is the identifier that
    /// an `Auth` message presents.
    pub fn from_members(tag: Option<&str>, uuid: Option<&str>) -> (r: Result<WebData, ParseError>)
        ensures
            decoded_as(r, decode_fields(text_view(tag), text_view(uuid))),
    {
        match tag {
            None => Err(ParseError::Untagged),
            Some(tag) => {
                if same_text(tag, "Auth") {
                    match uuid {
                        Some(uuid) => Ok(WebData::Auth { uuid: uuid.to_owned() }),
                        None => Err(ParseError::MissingIdentifier),
                    }
                } else if same_text(tag, "RequestTerminate") {
                    Ok(WebData::RequestTerminate)
                } else {
                    Err(ParseError::UnknownType)
                }
            },
        }
    }

    /// Reads a message off a parsed document.
    pub fn from_document(doc: &serde_json::Value) -> (r: Result<WebData, ParseError>)
        ensures
            decoded_as(r, decode_members(json_text_members(*doc))),
    {
        WebData::from_members(text_member(doc, "type"), text_member(doc, "uuid"))
    }

    /// Reads a message off a text frame.
    pub fn try_from(text: &str) -> (r: Result<WebData, ParseError>)
        ensures
            decoded_as(r, decode_text(text@)),
    {
        match parse_document(text) {
            Ok(doc) => WebData::from_document(&doc),
            Err(_) => Err(ParseError::Syntax),
        }
    }
}

} // verus!
