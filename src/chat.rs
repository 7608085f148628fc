//! The chat session: the roster and the message log that the view reads,
//! and the decisions taken on each inbound frame and each submit.
use vstd::prelude::*;
use vstd::string::*;
use crate::json::texts_view;
use crate::wire::{
    DecodeError, EnvelopeView, MessageData, MessageView, MsgTypes, WebSocketMessage, decode,
    decode_message, encode, envelope_of, envelope_text, message_envelope, message_of,
    outbound_payload, payload_text, register_envelope,
};

verus! {

/// Text with leading and trailing white space removed, as `str::trim` gives it.
pub uninterp spec fn trimmed(s: Seq<char>) -> Seq<char>;

/// Relies on str::trim: removes leading and trailing white space; an empty
/// text stays empty.
#[verifier::external_body]
fn trim_text(s: &str) -> (r: &str)
    ensures
        r@ == trimmed(s@),
        s@.len() == 0 ==> r@.len() == 0,
{
    s.trim()
}

/// A user as the view shows it.
#[derive(Debug)]
pub struct UserProfile {
    pub name: String,
    pub avatar: String,
}

pub struct ProfileView {
    pub name: Seq<char>,
    pub avatar: Seq<char>,
}

impl View for UserProfile {
    type V = ProfileView;

    open spec fn view(&self) -> ProfileView {
        ProfileView { name: self.name@, avatar: self.avatar@ }
    }
}

/// The identicon address of a user: it depends on the name alone.
pub open spec fn avatar_url(name: Seq<char>) -> Seq<char> {
    "https://avatars.dicebear.com/api/adventurer-neutral/"@ + name + ".svg"@
}

pub open spec fn profile_view(name: Seq<char>) -> ProfileView {
    ProfileView { name, avatar: avatar_url(name) }
}

/// The roster that a list of names stands for, in the same order.
pub open spec fn roster_of(names: Seq<Seq<char>>) -> Seq<ProfileView> {
    names.map_values(|n: Seq<char>| profile_view(n))
}

/// The address of the avatar of `name`.
pub fn avatar_for(name: &str) -> (r: String)
    ensures
        r@ == avatar_url(name@),
{
    let mut url = String::from_str("https://avatars.dicebear.com/api/adventurer-neutral/");
    url.append(name);
    url.append(".svg");
    url
}

/// The profile of `name`, with its avatar.
pub fn profile_of(name: &str) -> (r: UserProfile)
    ensures
        r@ == profile_view(name@),
{
    UserProfile { name: String::from_str(name), avatar: avatar_for(name) }
}

/// The two inputs of a session: a frame from the server, or a submit of
/// the input field, with its text and the local time of the submit.
pub enum Msg {
    HandleMsg(String),
    SubmitMessage { input: String, time: String },
}

/// What the surroundings are to do after an update.
#[derive(Debug)]
pub struct Effects {
    /// The roster or the log changed.
    pub rerender: bool,
    /// A frame to hand to the transport.
    pub outbound: Option<String>,
    /// The input field is to be emptied.
    pub clear_input: bool,
}

/// A chat session: the roster and the message log.
#[derive(Debug)]
pub struct Chat {
    pub users: Vec<UserProfile>,
    pub messages: Vec<MessageData>,
}

pub struct ChatView {
    pub users: Seq<ProfileView>,
    pub messages: Seq<MessageView>,
}

impl View for Chat {
    type V = ChatView;

    open spec fn view(&self) -> ChatView {
        ChatView {
            users: self.users@.map_values(|u: UserProfile| u@),
            messages: self.messages@.map_values(|m: MessageData| m@),
        }
    }
}

/// Every profile of the roster carries the avatar of its name.
pub open spec fn consistent(c: ChatView) -> bool {
    forall|i: int| 0 <= i < c.users.len() ==> (#[trigger] c.users[i]).avatar == avatar_url(c.users[i].name)
}

/// The session after a roster snapshot of `names`.
pub open spec fn after_users(c: ChatView, names: Seq<Seq<char>>) -> ChatView {
    ChatView { users: roster_of(names), messages: c.messages }
}

/// The session after the message `m` arrived.
pub open spec fn after_message(c: ChatView, m: MessageView) -> ChatView {
    ChatView { users: c.users, messages: c.messages.push(m) }
}

/// A submit whose text is empty once trimmed.
pub open spec fn is_blank(input: Seq<char>) -> bool {
    trimmed(input).len() == 0
}

/// The names that a roster snapshot lists; an absent list is empty.
pub open spec fn names_of(e: EnvelopeView) -> Seq<Seq<char>> {
    match e.data_array {
        Some(a) => a,
        None => Seq::empty(),
    }
}

/// The session after an envelope, and whether it changed: a roster
/// snapshot replaces the roster; a message envelope whose data reads as a
/// chat message appends it; anything else changes nothing.
pub open spec fn envelope_effect(c: ChatView, e: EnvelopeView) -> (ChatView, bool) {
    match e.kind {
        MsgTypes::Users => (after_users(c, names_of(e)), true),
        MsgTypes::Register => (c, false),
        MsgTypes::Message => match e.data {
            None => (c, false),
            Some(d) => match message_of(d) {
                Ok(m) => (after_message(c, m), true),
                Err(_) => (c, false),
            },
        },
    }
}

/// The session after a frame text, and whether it changed: a frame that
/// does not decode changes nothing.
pub open spec fn frame_effect(c: ChatView, text: Seq<char>) -> (ChatView, bool) {
    match envelope_of(text) {
        Ok(e) => envelope_effect(c, e),
        Err(_) => (c, false),
    }
}

/// The envelope that a submit of `input` at `time` sends: the text goes as
/// it was typed, untrimmed.
pub open spec fn outbound_view(input: Seq<char>, time: Seq<char>) -> EnvelopeView {
    EnvelopeView { kind: MsgTypes::Message, data_array: None, data: Some(payload_text(input, time)) }
}

/// The envelope that registers `username`.
pub open spec fn register_view(username: Seq<char>) -> EnvelopeView {
    EnvelopeView { kind: MsgTypes::Register, data_array: None, data: Some(username) }
}

/// Decides an outbound envelope for a submit of `input` at local time `time`:
/// none for a blank input, else a `message` envelope.
pub fn compose(input: &str, time: &str) -> (r: Option<WebSocketMessage>)
    ensures
        r is None <==> is_blank(input@),
        input@.len() == 0 ==> r is None,
        r matches Some(e) ==> e@ == outbound_view(input@, time@),
{
    if trim_text(input).is_empty() {
        None
    } else {
        Some(message_envelope(outbound_payload(input, time)))
    }
}

/// The effects of a submit: a frame to send and an emptied input field for
/// any text that is not blank; nothing at all for a blank one. The field is
/// emptied whatever then becomes of the send.
pub fn submit(input: &str, time: &str) -> (r: Effects)
    ensures
        !r.rerender,
        r.outbound is None <==> is_blank(input@),
        r.outbound matches Some(t) ==> t@ == envelope_text(outbound_view(input@, time@)),
        r.clear_input <==> !is_blank(input@),
        input@.len() == 0 ==> r.outbound is None && !r.clear_input,
{
    match compose(input, time) {
        Some(e) => Effects { rerender: false, outbound: Some(encode(&e)), clear_input: true },
        None => Effects { rerender: false, outbound: None, clear_input: false },
    }
}

/// Applying the same roster snapshot twice gives the roster that applying
/// it once gives: a snapshot replaces, it never adds.
pub proof fn roster_replacement_idempotent(c: ChatView, names: Seq<Seq<char>>)
    ensures
        after_users(after_users(c, names), names) == after_users(c, names),
{
}

/// Two messages that arrive one after the other stand at the end of the
/// log in the order of arrival, after everything that was there before.
pub proof fn log_keeps_arrival_order(c: ChatView, m1: MessageView, m2: MessageView)
    ensures
        after_message(after_message(c, m1), m2).messages == c.messages + seq![m1, m2],
        after_message(after_message(c, m1), m2).users == c.users,
{
    assert(after_message(after_message(c, m1), m2).messages =~= c.messages + seq![m1, m2]);
}

/// A roster built from names gives each user the avatar of its name, the
/// same one that a profile derived on the fly from that name carries.
pub proof fn roster_avatars_follow_names(c: ChatView, names: Seq<Seq<char>>)
    ensures
        consistent(after_users(c, names)),
        forall|i: int|
            0 <= i < names.len() ==> #[trigger] after_users(c, names).users[i] == profile_view(
                names[i],
            ),
{
}

/// A message keeps the roster consistent.
pub proof fn message_keeps_roster_consistent(c: ChatView, m: MessageView)
    requires
        consistent(c),
    ensures
        consistent(after_message(c, m)),
{
}

impl Chat {
    /// An empty session.
    pub fn new() -> (r: Chat)
        ensures
            r@.users.len() == 0,
            r@.messages.len() == 0,
            consistent(r@),
    {
        Chat { users: Vec::new(), messages: Vec::new() }
    }

    /// Starts the session of `username`: an empty session, and the
    /// encoded frame that registers the user.
    pub fn create(username: &str) -> (r: (Chat, String))
        ensures
            r.0@.users.len() == 0,
            r.0@.messages.len() == 0,
            consistent(r.0@),
            r.1@ == envelope_text(register_view(username@)),
    {
        (Chat::new(), encode(&register_envelope(username)))
    }

    /// Replaces the whole roster by the profiles of `names`.
    pub fn replace_roster(&mut self, names: &Vec<String>)
        ensures
            final(self)@ == after_users(old(self)@, texts_view(names@)),
    {
        let mut users: Vec<UserProfile> = Vec::new();
        let mut i: usize = 0;
        while i < names.len()
            invariant
                i <= names.len(),
                users@.len() == i,
                forall|k: int| 0 <= k < i ==> (#[trigger] users@[k])@ == profile_view(names@[k]@),
            decreases names.len() - i,
        {
            users.push(profile_of(names[i].as_str()));
            i = i + 1;
        }
        self.users = users;
        assert(self@.users =~= roster_of(texts_view(names@)));
    }

    /// Appends a message that was read; one that was not leaves the log as
    /// it is. Returns whether the log grew.
    pub fn ingest(&mut self, parsed: Result<MessageData, DecodeError>) -> (changed: bool)
        ensures
            changed == parsed is Ok,
            match parsed {
                Ok(m) => final(self)@ == after_message(old(self)@, m@),
                Err(_) => final(self)@ == old(self)@,
            },
    {
        match parsed {
            Ok(m) => {
                self.messages.push(m);
                assert(self@.messages =~= old(self)@.messages.push(m@));
                assert(self@.users =~= old(self)@.users);
                true
            },
            Err(_) => {
                assert(self@ == old(self)@);
                false
            },
        }
    }

    /// Applies an envelope. A roster snapshot replaces the roster; a
    /// message envelope appends the message it carries, if that reads as one;
    /// any other envelope changes nothing. Returns whether anything changed.
    pub fn handle_envelope(&mut self, env: WebSocketMessage) -> (changed: bool)
        ensures
            (final(self)@, changed) == envelope_effect(old(self)@, env@),
            consistent(old(self)@) ==> consistent(final(self)@),
    {
        proof {
            roster_avatars_follow_names(old(self)@, names_of(env@));
        }
        match env.message_type {
            MsgTypes::Users => {
                let names = match env.data_array {
                    Some(v) => v,
                    None => Vec::new(),
                };
                assert(texts_view(names@) =~= names_of(env@));
                self.replace_roster(&names);
                true
            },
            MsgTypes::Message => match env.data {
                Some(d) => self.ingest(decode_message(d.as_str())),
                None => false,
            },
            MsgTypes::Register => false,
        }
    }

    /// Handles a frame from the server. A frame that does not decode changes
    /// nothing; the log only ever grows by one message at its end.
    pub fn handle_frame(&mut self, text: &str) -> (changed: bool)
        ensures
            (final(self)@, changed) == frame_effect(old(self)@, text@),
            consistent(old(self)@) ==> consistent(final(self)@),
    {
        match decode(text) {
            Ok(env) => self.handle_envelope(env),
            Err(_) => false,
        }
    }

    /// Takes one input of the session and says what is to follow.
    pub fn update(&mut self, msg: Msg) -> (r: Effects)
        ensures
            match msg {
                Msg::HandleMsg(text) => r.outbound is None && !r.clear_input
                    && (final(self)@, r.rerender) == frame_effect(old(self)@, text@),
                Msg::SubmitMessage { input, time } => final(self)@ == old(self)@
                    && !r.rerender
                    && (r.outbound is None <==> is_blank(input@))
                    && (r.outbound matches Some(t) ==> t@ == envelope_text(
                        outbound_view(input@, time@),
                    ))
                    && (r.clear_input <==> !is_blank(input@))
                    && (input@.len() == 0 ==> r.outbound is None),
            },
            consistent(old(self)@) ==> consistent(final(self)@),
    {
        match msg {
            Msg::HandleMsg(text) => {
                let rerender = self.handle_frame(text.as_str());
                Effects { rerender, outbound: None, clear_input: false }
            },
            Msg::SubmitMessage { input, time } => submit(input.as_str(), time.as_str()),
        }
    }

    /// The profile that a message from `from` is shown with: the roster's
    /// entry of that name if there is one, else one derived from the name.
    /// Either way it is the profile of the name.
    pub fn sender_profile(&self, from: &str) -> (r: UserProfile)
        ensures
            r@.name == from@,
            consistent(self@) ==> r@ == profile_view(from@),
            forall|i: int|
                0 <= i < self@.users.len() && (#[trigger] self@.users[i]).name == from@ && (forall|k: int|
                    0 <= k < i ==> self@.users[k].name != from@) ==> r@ == self@.users[i],
            (forall|i: int| 0 <= i < self@.users.len() ==> (#[trigger] self@.users[i]).name != from@)
                ==> r@ == profile_view(from@),
    {
        let key = String::from_str(from);
        let mut i: usize = 0;
        while i < self.users.len()
            invariant
                i <= self.users.len(),
                key@ == from@,
                forall|k: int| 0 <= k < i ==> (#[trigger] self@.users[k]).name != from@,
            decreases self.users.len() - i,
        {
            if self.users[i].name == key {
                assert(self@.users[i as int] == self.users@[i as int]@);
                return UserProfile { name: self.users[i].name.clone(), avatar: self.users[i].avatar.clone() };
            }
            i = i + 1;
        }
        profile_of(from)
    }
}

} // verus!
