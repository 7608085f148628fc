//! The wire protocol: the envelope that wraps every frame, and the chat
//! message that a `message` envelope carries.
use vstd::prelude::*;
use vstd::string::*;
use crate::json::{
    json_members, json_opt_text, json_opt_texts, object_members, opt_texts_view, opt_view,
    pairs_view, read_opt_text, read_opt_texts, texts_view,
};

verus! {

/// The kind of an envelope, written in lower case on the wire.
#[derive(Clone, Copy, Debug, PartialEq, Eq, Structural)]
pub enum MsgTypes {
    Users,
    Register,
    Message,
}

/// Why a frame or a payload was rejected.
#[derive(Clone, Copy, Debug, PartialEq, Eq, Structural)]
pub enum DecodeError {
    /// The text is not a JSON object.
    Syntax,
    /// A field is missing or has the wrong type.
    Shape,
    /// `messageType` names no known kind.
    UnknownKind,
}

/// An envelope: `{"messageType": .., "dataArray": [..] | null, "data": .. | null}`.
#[derive(Debug)]
pub struct WebSocketMessage {
    pub message_type: MsgTypes,
    pub data_array: Option<Vec<String>>,
    pub data: Option<String>,
}

/// A chat message: `{"from": .., "message": .., "timestamp": .. (optional)}`.
#[derive(Debug)]
pub struct MessageData {
    pub from: String,
    pub message: String,
    pub timestamp: Option<String>,
}

/// What an envelope means.
pub struct EnvelopeView {
    pub kind: MsgTypes,
    pub data_array: Option<Seq<Seq<char>>>,
    pub data: Option<Seq<char>>,
}

/// What a chat message means.
pub struct MessageView {
    pub from: Seq<char>,
    pub message: Seq<char>,
    pub timestamp: Option<Seq<char>>,
}
impl View for WebSocketMessage {
    type V = EnvelopeView;

    open spec fn view(&self) -> EnvelopeView {
        EnvelopeView {
            kind: self.message_type,
            data_array: opt_texts_view(self.data_array),
            data: opt_view(self.data),
        }
    }
}

impl View for MessageData {
    type V = MessageView;

    open spec fn view(&self) -> MessageView {
        MessageView { from: self.from@, message: self.message@, timestamp: opt_view(self.timestamp) }
    }
}

/// The raw text of the value listed under `key`: the first listing.
pub open spec fn member(ms: Seq<(Seq<char>, Seq<char>)>, key: Seq<char>) -> Option<Seq<char>>
    decreases ms.len(),
{
    if ms.len() == 0 {
        None
    } else if ms[0].0 == key {
        Some(ms[0].1)
    } else {
        member(ms.drop_first(), key)
    }
}

/// An optional text field: absent or `null` is `None`.
pub open spec fn field_text(ms: Seq<(Seq<char>, Seq<char>)>, key: Seq<char>) -> Result<Option<Seq<char>>, DecodeError> {
    match member(ms, key) {
        None => Ok(None),
        Some(raw) => match json_opt_text(raw) {
            Some(t) => Ok(t),
            None => Err(DecodeError::Shape),
        },
    }
}

/// An optional list of texts: absent or `null` is `None`.
pub open spec fn field_texts(ms: Seq<(Seq<char>, Seq<char>)>, key: Seq<char>) -> Result<Option<Seq<Seq<char>>>, DecodeError> {
    match member(ms, key) {
        None => Ok(None),
        Some(raw) => match json_opt_texts(raw) {
            Some(t) => Ok(t),
            None => Err(DecodeError::Shape),
        },
    }
}

/// What a frame text says as an envelope. Members other than the three of
/// the envelope are ignored.
pub open spec fn envelope_of(text: Seq<char>) -> Result<EnvelopeView, DecodeError> {
    match json_members(text) {
        None => Err(DecodeError::Syntax),
        Some(ms) => match field_text(ms, "messageType"@) {
            Ok(Some(t)) => match kind_of(t) {
                None => Err(DecodeError::UnknownKind),
                Some(k) => match field_texts(ms, "dataArray"@) {
                    Err(e) => Err(e),
                    Ok(a) => match field_text(ms, "data"@) {
                        Err(e) => Err(e),
                        Ok(d) => Ok(EnvelopeView { kind: k, data_array: a, data: d }),
                    },
                },
            },
            _ => Err(DecodeError::Shape),
        },
    }
}

/// What a text says as a chat message. A missing or `null` timestamp is `None`.
pub open spec fn message_of(text: Seq<char>) -> Result<MessageView, DecodeError> {
    match json_members(text) {
        None => Err(DecodeError::Syntax),
        Some(ms) => match (field_text(ms, "from"@), field_text(ms, "message"@)) {
            (Ok(Some(f)), Ok(Some(b))) => match field_text(ms, "timestamp"@) {
                Err(e) => Err(e),
                Ok(t) => Ok(MessageView { from: f, message: b, timestamp: t }),
            },
            _ => Err(DecodeError::Shape),
        },
    }
}

pub open spec fn kind_of(t: Seq<char>) -> Option<MsgTypes> {
    if t == "users"@ {
        Some(MsgTypes::Users)
    } else if t == "register"@ {
        Some(MsgTypes::Register)
    } else if t == "message"@ {
        Some(MsgTypes::Message)
    } else {
        None
    }
}

pub open spec fn kind_name(k: MsgTypes) -> Seq<char> {
    match k {
        MsgTypes::Users => "users"@,
        MsgTypes::Register => "register"@,
        MsgTypes::Message => "message"@,
    }
}

fn find_member<'a>(ms: &'a Vec<(String, String)>, key: &String) -> (r: Option<&'a String>)
    ensures
        r matches Some(x) ==> member(pairs_view(ms@), key@) == Some(x@),
        r is None ==> member(pairs_view(ms@), key@) is None,
{
    let ghost pv = pairs_view(ms@);
    let mut i: usize = 0;
    assert(pv.skip(0) =~= pv);
    while i < ms.len()
        invariant
            i <= ms.len(),
            pv == pairs_view(ms@),
            member(pv, key@) == member(pv.skip(i as int), key@),
        decreases ms.len() - i,
    {
        assert(pv.skip(i as int)[0] == pv[i as int]);
        if ms[i].0 == *key {
            return Some(&ms[i].1);
        }
        assert(pv.skip(i as int).drop_first() =~= pv.skip(i + 1));
        i = i + 1;
    }
    None
}

fn field_text_of(ms: &Vec<(String, String)>, key: &String) -> (r: Result<Option<String>, DecodeError>)
    ensures
        match field_text(pairs_view(ms@), key@) {
            Ok(t) => r matches Ok(x) && opt_view(x) == t,
            Err(e) => r matches Err(x) && x == e,
        },
{
    match find_member(ms, key) {
        None => Ok(None),
        Some(raw) => match read_opt_text(raw.as_str()) {
            Some(t) => Ok(t),
            None => Err(DecodeError::Shape),
        },
    }
}

fn field_texts_of(ms: &Vec<(String, String)>, key: &String) -> (r: Result<Option<Vec<String>>, DecodeError>)
    ensures
        match field_texts(pairs_view(ms@), key@) {
            Ok(t) => r matches Ok(x) && opt_texts_view(x) == t,
            Err(e) => r matches Err(x) && x == e,
        },
{
    match find_member(ms, key) {
        None => Ok(None),
        Some(raw) => match read_opt_texts(raw.as_str()) {
            Some(t) => Ok(t),
            None => Err(DecodeError::Shape),
        },
    }
}

fn kind_from(t: &String) -> (r: Option<MsgTypes>)
    ensures
        r == kind_of(t@),
{
    if *t == String::from_str("users") {
        Some(MsgTypes::Users)
    } else if *t == String::from_str("register") {
        Some(MsgTypes::Register)
    } else if *t == String::from_str("message") {
        Some(MsgTypes::Message)
    } else {
        None
    }
}

fn kind_text(k: MsgTypes) -> (r: String)
    ensures
        r@ == kind_name(k),
{
    match k {
        MsgTypes::Users => String::from_str("users"),
        MsgTypes::Register => String::from_str("register"),
        MsgTypes::Message => String::from_str("message"),
    }
}

/// Decodes an envelope from frame text.
pub fn decode(text: &str) -> (r: Result<WebSocketMessage, DecodeError>)
    ensures
        match envelope_of(text@) {
            Ok(e) => r matches Ok(m) && m@ == e,
            Err(e) => r matches Err(x) && x == e,
        },
{
    let ms = match object_members(text) {
        Some(ms) => ms,
        None => return Err(DecodeError::Syntax),
    };
    let message_type = match field_text_of(&ms, &String::from_str("messageType")) {
        Ok(Some(t)) => match kind_from(&t) {
            Some(k) => k,
            None => return Err(DecodeError::UnknownKind),
        },
        _ => return Err(DecodeError::Shape),
    };
    let data_array = match field_texts_of(&ms, &String::from_str("dataArray")) {
        Ok(a) => a,
        Err(e) => return Err(e),
    };
    let data = match field_text_of(&ms, &String::from_str("data")) {
        Ok(d) => d,
        Err(e) => return Err(e),
    };
    Ok(WebSocketMessage { message_type, data_array, data })
}

/// Decodes a chat message from the text that an envelope carries.
pub fn decode_message(text: &str) -> (r: Result<MessageData, DecodeError>)
    ensures
        match message_of(text@) {
            Ok(e) => r matches Ok(m) && m@ == e,
            Err(e) => r matches Err(x) && x == e,
        },
{
    let ms = match object_members(text) {
        Some(ms) => ms,
        None => return Err(DecodeError::Syntax),
    };
    let from = field_text_of(&ms, &String::from_str("from"));
    let message = field_text_of(&ms, &String::from_str("message"));
    match (from, message) {
        (Ok(Some(from)), Ok(Some(message))) => {
            match field_text_of(&ms, &String::from_str("timestamp")) {
                Ok(timestamp) => Ok(MessageData { from, message, timestamp }),
                Err(e) => Err(e),
            }
        },
        _ => Err(DecodeError::Shape),
    }
}

/// The envelope that registers `username` with the server.
pub fn register_envelope(username: &str) -> (r: WebSocketMessage)
    ensures
        r@ == (EnvelopeView { kind: MsgTypes::Register, data_array: None, data: Some(username@) }),
{
    WebSocketMessage {
        message_type: MsgTypes::Register,
        data_array: None,
        data: Some(String::from_str(username)),
    }
}

/// The envelope that carries `payload`, the text of a chat message.
pub fn message_envelope(payload: String) -> (r: WebSocketMessage)
    ensures
        r@ == (EnvelopeView { kind: MsgTypes::Message, data_array: None, data: Some(payload@) }),
{
    WebSocketMessage { message_type: MsgTypes::Message, data_array: None, data: Some(payload) }
}

/// How serde_json writes one character inside a string literal: `"` and
/// `\` behind a backslash, the five short escapes, `\u00xx` in lower-case
/// hex for the other characters below U+0020, anything else as it is.
pub open spec fn escaped(c: char) -> Seq<char> {
    if c == '"' {
        seq!['\\', '"']
    } else if c == '\\' {
        seq!['\\', '\\']
    } else if c == '\u{8}' {
        seq!['\\', 'b']
    } else if c == '\u{c}' {
        seq!['\\', 'f']
    } else if c == '\n' {
        seq!['\\', 'n']
    } else if c == '\r' {
        seq!['\\', 'r']
    } else if c == '\t' {
        seq!['\\', 't']
    } else if (c as u32) < 0x20 {
        seq!['\\', 'u', '0', '0', "0123456789abcdef"@[(c as u32 / 16) as int], "0123456789abcdef"@[(c as u32 % 16) as int]]
    } else {
        seq![c]
    }
}

pub open spec fn escaped_all(s: Seq<char>) -> Seq<char>
    decreases s.len(),
{
    if s.len() == 0 {
        Seq::empty()
    } else {
        escaped_all(s.drop_last()) + escaped(s.last())
    }
}

/// The JSON string literal of a text, as serde_json writes it.
pub open spec fn json_quoted(s: Seq<char>) -> Seq<char> {
    seq!['"'] + escaped_all(s) + seq!['"']
}

/// Relies on serde_json::to_string on a `str`: the text as a JSON string
/// literal. Writing a `str` to a `Vec` cannot fail, so the error arm is
/// never taken.
#[verifier::external_body]
fn quote(s: &str) -> (r: String)
    ensures
        r@ == json_quoted(s@),
{
    serde_json::to_string(s).unwrap_or_default()
}

/// A list of texts as the inside of a JSON array: the literals, separated
/// by commas.
pub open spec fn joined(items: Seq<Seq<char>>) -> Seq<char>
    decreases items.len(),
{
    if items.len() == 0 {
        Seq::empty()
    } else if items.len() == 1 {
        json_quoted(items[0])
    } else {
        joined(items.drop_last()) + ","@ + json_quoted(items.last())
    }
}

/// The frame text of an envelope: its members `messageType`, `dataArray`
/// and `data`, in that order, with `null` for an absent field, no spaces.
pub open spec fn envelope_text(e: EnvelopeView) -> Seq<char> {
    "{\"messageType\":"@ + json_quoted(kind_name(e.kind)) + ",\"dataArray\":"@ + match e.data_array {
        None => "null"@,
        Some(a) => "["@ + joined(a) + "]"@,
    } + ",\"data\":"@ + match e.data {
        None => "null"@,
        Some(d) => json_quoted(d),
    } + "}"@
}

/// The text of an outbound chat message: `message` and `timestamp`, in
/// that order. The server adds the sender.
pub open spec fn payload_text(body: Seq<char>, time: Seq<char>) -> Seq<char> {
    "{\"message\":"@ + json_quoted(body) + ",\"timestamp\":"@ + json_quoted(time) + "}"@
}

fn joined_texts(v: &Vec<String>) -> (r: String)
    ensures
        r@ == joined(texts_view(v@)),
{
    let mut out = String::new();
    let mut i: usize = 0;
    while i < v.len()
        invariant
            i <= v.len(),
            out@ == joined(texts_view(v@).take(i as int)),
        decreases v.len() - i,
    {
        let ghost before = texts_view(v@).take(i as int);
        let ghost after = texts_view(v@).take(i + 1);
        assert(after.drop_last() =~= before);
        assert(after.last() == v@[i as int]@);
        if i > 0 {
            out.append(",");
        }
        let q = quote(v[i].as_str());
        out.append(q.as_str());
        proof {
            if i == 0 {
                assert(out@ =~= json_quoted(after[0]));
            }
        }
        i = i + 1;
    }
    assert(texts_view(v@).take(v.len() as int) =~= texts_view(v@));
    out
}

/// Encodes an envelope as frame text.
pub fn encode(m: &WebSocketMessage) -> (r: String)
    ensures
        r@ == envelope_text(m@),
{
    let mut out = String::from_str("{\"messageType\":");
    let kind = quote(kind_text(m.message_type).as_str());
    out.append(kind.as_str());
    out.append(",\"dataArray\":");
    match &m.data_array {
        None => out.append("null"),
        Some(a) => {
            out.append("[");
            let inner = joined_texts(a);
            out.append(inner.as_str());
            out.append("]");
        },
    }
    out.append(",\"data\":");
    match &m.data {
        None => out.append("null"),
        Some(d) => {
            let q = quote(d.as_str());
            out.append(q.as_str());
        },
    }
    out.append("}");
    out
}

/// The text of an outbound chat message of `body`, stamped with `time`.
pub fn outbound_payload(body: &str, time: &str) -> (r: String)
    ensures
        r@ == payload_text(body@, time@),
{
    let mut out = String::from_str("{\"message\":");
    let b = quote(body);
    out.append(b.as_str());
    out.append(",\"timestamp\":");
    let t = quote(time);
    out.append(t.as_str());
    out.append("}");
    out
}

} // verus!
