//! The wire codec: the texts a client writes for its requests, the envelope
//! it reads from each inbound frame, and the server's reading of a request.
use vstd::prelude::*;
use crate::action::{
    C2SActionTypes, S2CActionTypes, c2s_long_tag, c2s_of_tag, c2s_short_tag, lemma_c2s_tags_read_back,
    lemma_s2c_tags_read_back, s2c_long_tag, s2c_of_tag, s2c_short_tag,
};
use crate::json::{
    Json, is_direction, is_direction_text, json_quoted, member_of, member_value, parse_document, parsed_document, quote,
};
use crate::payload::{MoveRequestData, move_request_of};

verus! {

/// One inbound frame: which action it names and the payload that came with it.
pub struct GenericIncomingRequest {
    pub action_type: S2CActionTypes,
    pub data: Json,
}

/// The sentinel for a frame that cannot be read: the `Empty` action with a
/// null payload.
pub open spec fn sentinel() -> GenericIncomingRequest {
    GenericIncomingRequest { action_type: S2CActionTypes::Empty, data: Json::Null }
}

/// The envelope of a document: its `action_type` member must be a string that
/// names an action and its `data` member must be present; otherwise the
/// sentinel.
pub open spec fn envelope_of(doc: Json) -> GenericIncomingRequest {
    match (member_of(doc, "action_type"@), member_of(doc, "data"@)) {
        (Some(Json::Str(t)), Some(d)) => match s2c_of_tag(t@) {
            Some(a) => GenericIncomingRequest { action_type: a, data: d },
            None => sentinel(),
        },
        _ => sentinel(),
    }
}

/// The envelope of an inbound text: the sentinel where it is not JSON.
pub open spec fn envelope_of_text(text: Seq<char>) -> GenericIncomingRequest {
    match parsed_document(text) {
        Some(doc) => envelope_of(doc),
        None => sentinel(),
    }
}

impl GenericIncomingRequest {
    /// The sentinel envelope.
    pub fn empty() -> (r: GenericIncomingRequest)
        ensures
            r == sentinel(),
    {
        GenericIncomingRequest { action_type: S2CActionTypes::Empty, data: Json::Null }
    }

    /// Reads the envelope of a document.
    pub fn from_document(doc: Json) -> (r: GenericIncomingRequest)
        ensures
            r == envelope_of(doc),
    {
        let action = match doc.member("action_type") {
            Some(Json::Str(t)) => S2CActionTypes::from_tag(t.as_str()),
            _ => None,
        };
        match action {
            Some(a) => match doc.into_member("data") {
                Some(d) => GenericIncomingRequest { action_type: a, data: d },
                None => GenericIncomingRequest::empty(),
            },
            None => GenericIncomingRequest::empty(),
        }
    }
}

/// Reads one inbound frame. A text that is not JSON, or whose tag names no
/// action, or that has no payload, gives the sentinel: reading never fails.
pub fn decode_envelope(text: &str) -> (r: GenericIncomingRequest)
    ensures
        r == envelope_of_text(text@),
{
    match parse_document(text) {
        Some(doc) => GenericIncomingRequest::from_document(doc),
        None => GenericIncomingRequest::empty(),
    }
}

/// A document whose `action_type` is a string that names no action reads as
/// the sentinel, whatever else it holds.
pub proof fn lemma_unknown_tag_is_empty(doc: Json, t: String)
    requires
        member_of(doc, "action_type"@) == Some(Json::Str(t)),
        forall|b: S2CActionTypes| t@ != #[trigger] s2c_long_tag(b) && t@ != s2c_short_tag(b),
    ensures
        envelope_of(doc) == sentinel(),
{
    lemma_s2c_tags_read_back(S2CActionTypes::Empty, t@);
}

/// The text of a join request.
pub open spec fn join_text(friendly_name: Seq<char>) -> Seq<char> {
    "{\"action_type\":\"join\",\"data\":{\"friendly_name\":"@ + json_quoted(friendly_name) + "}}"@
}

/// The text of a move request, each direction given as JSON number text or
/// `null`.
pub open spec fn move_text(x_direction: Seq<char>, y_direction: Seq<char>) -> Seq<char> {
    "{\"action_type\":\"move\",\"data\":{\"x_direction\":"@ + x_direction + ",\"y_direction\":"@
        + y_direction + "}}"@
}

/// Writes the request to join under a friendly name.
pub fn encode_join(friendly_name: &str) -> (r: String)
    ensures
        r@ == join_text(friendly_name@),
{
    let mut out = String::from_str("{\"action_type\":\"join\",\"data\":{\"friendly_name\":");
    let name = quote(friendly_name);
    out.append(name.as_str());
    out.append("}}");
    out
}

/// Writes the request to move by a direction, each component given as the
/// JSON text serde_json writes for a float: a number, or `null` for one that
/// is not finite. `None` only where a component is neither.
pub fn encode_move(x_direction: &str, y_direction: &str) -> (r: Option<String>)
    ensures
        match r {
            Some(t) => is_direction_text(x_direction@) && is_direction_text(y_direction@)
                && t@ == move_text(x_direction@, y_direction@),
            None => !is_direction_text(x_direction@) || !is_direction_text(y_direction@),
        },
{
    if !is_direction(x_direction) || !is_direction(y_direction) {
        return None;
    }
    let mut out = String::from_str("{\"action_type\":\"move\",\"data\":{\"x_direction\":");
    out.append(x_direction);
    out.append(",\"y_direction\":");
    out.append(y_direction);
    out.append("}}");
    Some(out)
}

/// A request as the server reads it.
pub enum ClientRequest {
    Join { friendly_name: String },
    Move(MoveRequestData),
}

/// The action that the `action_type` member of a document names.
pub open spec fn request_action(doc: Json) -> Option<C2SActionTypes> {
    match member_of(doc, "action_type"@) {
        Some(Json::Str(t)) => c2s_of_tag(t@),
        _ => None,
    }
}

/// The server's reading of a request document: a join needs the string
/// `friendly_name`, a move the numbers `x_direction` and `y_direction`, each
/// in the `data` member; anything else reads as no request.
pub open spec fn client_request_of(doc: Json) -> Option<ClientRequest> {
    match (request_action(doc), member_of(doc, "data"@)) {
        (Some(C2SActionTypes::Join), Some(d)) => match member_of(d, "friendly_name"@) {
            Some(Json::Str(n)) => Some(ClientRequest::Join { friendly_name: n }),
            _ => None,
        },
        (Some(C2SActionTypes::Move), Some(d)) => match move_request_of(d) {
            Some(m) => Some(ClientRequest::Move(m)),
            None => None,
        },
        _ => None,
    }
}

/// The text that a request is written as: none for a move whose directions
/// are neither JSON number texts nor `null`.
pub open spec fn request_text(r: ClientRequest) -> Option<Seq<char>> {
    match r {
        ClientRequest::Join { friendly_name } => Some(join_text(friendly_name@)),
        ClientRequest::Move(m) => if is_direction_text(m.x_direction@) && is_direction_text(m.y_direction@) {
            Some(move_text(m.x_direction@, m.y_direction@))
        } else {
            None
        },
    }
}

/// A document with exactly the two members `action_type` and `data`, in that
/// order, whose tag is one of the two forms of `action`.
pub open spec fn is_request_document(doc: Json, action: C2SActionTypes, data: Vec<(String, Json)>) -> bool {
    match doc {
        Json::Object(members) => members@.len() == 2 && members@[0].0@ == "action_type"@
            && members@[1].0@ == "data"@ && members@[1].1 == Json::Object(data)
            && match members@[0].1 {
                Json::Str(t) => t@ == c2s_long_tag(action) || t@ == c2s_short_tag(action),
                _ => false,
            },
        _ => false,
    }
}

/// The document that spells a request: the members that `request_text`
/// writes, with the tag in either form.
pub open spec fn spells_request(doc: Json, r: ClientRequest) -> bool {
    match r {
        ClientRequest::Join { friendly_name } => exists|data: Vec<(String, Json)>| is_request_document(doc, C2SActionTypes::Join, data)
            && data@.len() == 1 && data@[0].0@ == "friendly_name"@ && data@[0].1 == Json::Str(friendly_name),
        ClientRequest::Move(m) => exists|data: Vec<(String, Json)>| is_request_document(doc, C2SActionTypes::Move, data)
            && data@.len() == 2 && data@[0].0@ == "x_direction"@ && data@[0].1 == Json::Number(m.x_direction)
            && data@[1].0@ == "y_direction"@ && data@[1].1 == Json::Number(m.y_direction),
    }
}

impl ClientRequest {
    /// Reads a request document the way the server does.
    pub fn from_document(doc: &Json) -> (r: Option<ClientRequest>)
        ensures
            r == client_request_of(*doc),
    {
        let action = match doc.member("action_type") {
            Some(Json::Str(t)) => C2SActionTypes::from_tag(t.as_str()),
            _ => None,
        };
        let data = match doc.member("data") {
            Some(d) => d,
            None => return None,
        };
        match action {
            Some(C2SActionTypes::Join) => match data.member("friendly_name") {
                Some(Json::Str(n)) => Some(ClientRequest::Join { friendly_name: n.clone() }),
                _ => None,
            },
            Some(C2SActionTypes::Move) => match MoveRequestData::from_document(data) {
                Some(m) => Some(ClientRequest::Move(m)),
                None => None,
            },
            _ => None,
        }
    }

    /// Reads a request text the way the server does.
    pub fn decode(text: &str) -> (r: Option<ClientRequest>)
        ensures
            r == match parsed_document(text@) {
                Some(doc) => client_request_of(doc),
                None => None,
            },
    {
        match parse_document(text) {
            Some(doc) => ClientRequest::from_document(&doc),
            None => None,
        }
    }

    /// Writes the request.
    pub fn encode(&self) -> (r: Option<String>)
        ensures
            match r {
                Some(t) => request_text(*self) == Some(t@),
                None => request_text(*self) is None,
            },
    {
        match self {
            ClientRequest::Join { friendly_name } => Some(encode_join(friendly_name.as_str())),
            ClientRequest::Move(m) => encode_move(m.x_direction.as_str(), m.y_direction.as_str()),
        }
    }
}

/// The server reads back every request from the document that spells it,
/// whichever form of its tag the document uses.
pub proof fn lemma_request_round_trip(r: ClientRequest, doc: Json)
    requires
        spells_request(doc, r),
    ensures
        client_request_of(doc) == Some(r),
{
    reveal_strlit("action_type");
    reveal_strlit("data");
    assert("action_type"@.len() == 11 && "data"@.len() == 4);
    lemma_c2s_tags_read_back(C2SActionTypes::Join, Seq::empty());
    lemma_c2s_tags_read_back(C2SActionTypes::Move, Seq::empty());
    match r {
        ClientRequest::Join { friendly_name } => {
            let data = choose|data: Vec<(String, Json)>| is_request_document(doc, C2SActionTypes::Join, data)
                && data@.len() == 1 && data@[0].0@ == "friendly_name"@ && data@[0].1 == Json::Str(friendly_name);
            let members = doc->Object_0@;
            assert(members.drop_first()[0] == members[1]);
            assert(member_value(members.drop_first(), "data"@) == Some(members[1].1));
            assert(member_of(doc, "data"@) == Some(Json::Object(data)));
        },
        ClientRequest::Move(m) => {
            let data = choose|data: Vec<(String, Json)>| is_request_document(doc, C2SActionTypes::Move, data)
                && data@.len() == 2 && data@[0].0@ == "x_direction"@ && data@[0].1 == Json::Number(m.x_direction)
                && data@[1].0@ == "y_direction"@ && data@[1].1 == Json::Number(m.y_direction);
            let members = doc->Object_0@;
            assert(members.drop_first()[0] == members[1]);
            assert(member_value(members.drop_first(), "data"@) == Some(members[1].1));
            assert(member_of(doc, "data"@) == Some(Json::Object(data)));
            reveal_strlit("x_direction");
            reveal_strlit("y_direction");
            assert("x_direction"@[0] == 'x' && "y_direction"@[0] == 'y');
            assert(data@.drop_first()[0] == data@[1]);
            assert(member_value(data@.drop_first(), "y_direction"@) == Some(data@[1].1));
        },
    }
}

} // verus!
