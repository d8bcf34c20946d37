//! The wire codec: client messages to JSON text, JSON text to server messages.
//!
//! A message without payload travels as a JSON string holding its tag; a
//! message with payload travels as a JSON object with one member, named by
//! the tag, whose value is an object of the message's fields. Reading and
//! quoting JSON is left to `serde_json`; which layouts are messages, and
//! which message each is, is decided here.

use vstd::prelude::*;
use crate::packet::{C2S, ClientMsg, ConnectNotification, DisconnectNotification, S2C, ServerMsg};

verus! {

/// Why a frame's text is not a server message.
#[derive(Debug, Clone, Copy, PartialEq, Eq, Structural)]
pub enum DecodeError {
    /// The text is neither a JSON string nor a JSON object with exactly one
    /// member whose value is an object, or a tag without payload carries one.
    NotAMessage,
    /// The tag names no server message.
    UnknownTag,
    /// A field the message needs is absent or is not a string.
    MissingField,
}

/// One member of a payload object: its name, and its text if it is a string.
#[derive(Debug, Clone, PartialEq, Eq)]
pub struct Field {
    pub name: String,
    pub text: Option<String>,
}

/// One member of a frame's outer object: the tag and the payload's members.
#[derive(Debug, Clone, PartialEq, Eq)]
pub struct Entry {
    pub tag: String,
    pub fields: Vec<Field>,
}

/// Model of [`Field`].
pub struct FieldModel {
    pub name: Seq<char>,
    pub text: Option<Seq<char>>,
}

/// Model of [`Entry`].
pub struct EntryModel {
    pub tag: Seq<char>,
    pub fields: Seq<FieldModel>,
}

/// The model of an optional string.
pub open spec fn text_model(t: Option<String>) -> Option<Seq<char>> {
    match t {
        Some(s) => Some(s@),
        None => None,
    }
}

impl View for Field {
    type V = FieldModel;

    open spec fn view(&self) -> FieldModel {
        FieldModel { name: self.name@, text: text_model(self.text) }
    }
}

/// The models of a payload's members, in order.
pub open spec fn fields_model(fields: Seq<Field>) -> Seq<FieldModel> {
    Seq::new(fields.len(), |i: int| fields[i]@)
}

impl View for Entry {
    type V = EntryModel;

    open spec fn view(&self) -> EntryModel {
        EntryModel { tag: self.tag@, fields: fields_model(self.fields@) }
    }
}

/// The model of an optional table of entries.
pub open spec fn table_model(t: Option<Vec<Entry>>) -> Option<Seq<EntryModel>> {
    match t {
        Some(v) => Some(Seq::new(v@.len(), |i: int| v@[i]@)),
        None => None,
    }
}

/// The model of a decoding result.
pub open spec fn decoded_model(r: Result<S2C, DecodeError>) -> Result<ServerMsg, DecodeError> {
    match r {
        Ok(m) => Ok(m@),
        Err(e) => Err(e),
    }
}

/// The string that `text` denotes if `text` is one JSON string, as
/// `serde_json` reads it.
pub uninterp spec fn json_string_of(text: Seq<char>) -> Option<Seq<char>>;

/// The members of the object that `text` denotes if `text` is one JSON object
/// whose members are all objects, as `serde_json` reads it: one entry per
/// distinct member name.
pub uninterp spec fn json_table_of(text: Seq<char>) -> Option<Seq<EntryModel>>;

/// The JSON string literal, quotes and escapes included, that `serde_json`
/// writes for `text`.
pub uninterp spec fn json_quoted(text: Seq<char>) -> Seq<char>;

/// Calls `serde_json::from_str` at type `String`. Claimed: the result is a
/// function of the text alone, named [`json_string_of`]; a text that
/// `serde_json` does not read as one string gives `None`.
#[verifier::external_body]
fn read_string(text: &str) -> (r: Option<String>)
    ensures
        text_model(r) == json_string_of(text@),
{
    serde_json::from_str::<String>(text).ok()
}

/// Calls `serde_json::from_str` at the type of a map from names to maps from
/// names to `serde_json::Value`, and hands the members out as entries, each
/// value by `serde_json::Value::as_str`. Claimed: the result is a function of
/// the text alone, named [`json_table_of`]; a text that `serde_json` does not
/// read as such a map gives `None`.
#[verifier::external_body]
fn read_table(text: &str) -> (r: Option<Vec<Entry>>)
    ensures
        table_model(r) == json_table_of(text@),
{
    let outer = serde_json::from_str::<
        std::collections::BTreeMap<String, std::collections::BTreeMap<String, serde_json::Value>>,
    >(text).ok()?;
    Some(outer.into_iter().map(|(tag, inner)| Entry {
        tag,
        fields: inner.into_iter().map(|(name, v)| Field {
            name,
            text: v.as_str().map(String::from),
        }).collect(),
    }).collect())
}

/// Formats a `serde_json::Value::String` holding `text` through its
/// `Display` impl, which writes compact JSON. Claimed: the result is a
/// function of the text alone, named [`json_quoted`].
#[verifier::external_body]
fn quote(text: &str) -> (r: String)
    ensures
        r@ == json_quoted(text@),
{
    serde_json::Value::String(text.to_owned()).to_string()
}

/// The wire text of a play request whose link, quoted as a JSON string, is
/// `quoted`.
pub open spec fn play_frame_spec(quoted: Seq<char>) -> Seq<char> {
    "{\"Play\":{\"yt_link\":"@ + quoted + "}}"@
}

/// The wire text of a client message.
pub open spec fn encode_spec(m: ClientMsg) -> Seq<char> {
    match m {
        ClientMsg::Ready1 => "\"Ready1\""@,
        ClientMsg::Ready2 => "\"Ready2\""@,
        ClientMsg::Skip => "\"Skip\""@,
        ClientMsg::Playing => "\"Playing\""@,
        ClientMsg::Play { yt_link } => play_frame_spec(json_quoted(yt_link)),
    }
}

/// The text of the first field called `name`, if it has one.
pub open spec fn find_text(fields: Seq<FieldModel>, name: Seq<char>) -> Option<Seq<char>>
    decreases fields.len(),
{
    if fields.len() == 0 {
        None
    } else if fields[0].name == name {
        fields[0].text
    } else {
        find_text(fields.drop_first(), name)
    }
}

/// The message that a bare tag stands for.
pub open spec fn decode_bare(tag: Seq<char>) -> Result<ServerMsg, DecodeError> {
    if tag == "Start"@ {
        Ok(ServerMsg::Start)
    } else if tag == "Skip"@ {
        Ok(ServerMsg::Skip)
    } else if tag == "Play"@ || tag == "ConnectNotification"@ || tag
        == "DisconnectNotification"@ {
        Err(DecodeError::MissingField)
    } else {
        Err(DecodeError::UnknownTag)
    }
}

/// The message that a tag with a payload stands for.
pub open spec fn decode_entry(e: EntryModel) -> Result<ServerMsg, DecodeError> {
    if e.tag == "ConnectNotification"@ {
        match find_text(e.fields, "id"@) {
            Some(id) => Ok(ServerMsg::Connect { id }),
            None => Err(DecodeError::MissingField),
        }
    } else if e.tag == "DisconnectNotification"@ {
        match find_text(e.fields, "id"@) {
            Some(id) => Ok(ServerMsg::Disconnect { id }),
            None => Err(DecodeError::MissingField),
        }
    } else if e.tag == "Play"@ {
        match find_text(e.fields, "yt_link"@) {
            Some(yt_link) => Ok(ServerMsg::Play { yt_link }),
            None => Err(DecodeError::MissingField),
        }
    } else if e.tag == "Start"@ || e.tag == "Skip"@ {
        Err(DecodeError::NotAMessage)
    } else {
        Err(DecodeError::UnknownTag)
    }
}

/// The message that a frame's layout stands for: `bare` is the frame read as
/// a JSON string, `table` the frame read as a JSON object of objects.
pub open spec fn decode_layout(bare: Option<Seq<char>>, table: Option<Seq<EntryModel>>) -> Result<
    ServerMsg,
    DecodeError,
> {
    match bare {
        Some(tag) => decode_bare(tag),
        None => match table {
            Some(t) => if t.len() == 1 {
                decode_entry(t[0])
            } else {
                Err(DecodeError::NotAMessage)
            },
            None => Err(DecodeError::NotAMessage),
        },
    }
}

/// The message that a frame's text stands for.
pub open spec fn decode_spec(text: Seq<char>) -> Result<ServerMsg, DecodeError> {
    decode_layout(json_string_of(text), json_table_of(text))
}

/// The layout in which a server message travels.
pub open spec fn layout_of(m: ServerMsg) -> (Option<Seq<char>>, Option<Seq<EntryModel>>) {
    match m {
        ServerMsg::Start => (Some("Start"@), None),
        ServerMsg::Skip => (Some("Skip"@), None),
        ServerMsg::Connect { id } => (None, Some(seq![one_field("ConnectNotification"@, "id"@, id)])),
        ServerMsg::Disconnect { id } => (
            None,
            Some(seq![one_field("DisconnectNotification"@, "id"@, id)]),
        ),
        ServerMsg::Play { yt_link } => (None, Some(seq![one_field("Play"@, "yt_link"@, yt_link)])),
    }
}

/// An entry with a single text field.
pub open spec fn one_field(tag: Seq<char>, name: Seq<char>, text: Seq<char>) -> EntryModel {
    EntryModel { tag, fields: seq![FieldModel { name, text: Some(text) }] }
}

/// Whether two strings hold the same characters.
fn same_text(a: &str, b: &str) -> (r: bool)
    ensures
        r == (a@ == b@),
{
    a.to_owned() == b.to_owned()
}

/// Builds the frame of a play request around its link, which the caller has
/// already quoted as a JSON string.
pub fn play_frame(quoted: &str) -> (s: String)
    ensures
        s@ == play_frame_spec(quoted@),
{
    let mut s = "{\"Play\":{\"yt_link\":".to_owned();
    s.append(quoted);
    s.append("}}");
    s
}

/// Encodes a client message as the text of one frame.
pub fn encode(m: &C2S) -> (s: String)
    ensures
        s@ == encode_spec(m@),
{
    match m {
        C2S::Ready1 => "\"Ready1\"".to_owned(),
        C2S::Ready2 => "\"Ready2\"".to_owned(),
        C2S::Skip => "\"Skip\"".to_owned(),
        C2S::Playing => "\"Playing\"".to_owned(),
        C2S::Play { yt_link } => {
            let quoted = quote(yt_link.as_str());
            play_frame(quoted.as_str())
        },
    }
}

/// Looks up the text of the first field called `name`.
pub fn lookup(fields: &Vec<Field>, name: &str) -> (r: Option<String>)
    ensures
        text_model(r) == find_text(fields_model(fields@), name@),
{
    let ghost all = fields_model(fields@);
    let mut i: usize = 0;
    assert(all.subrange(0, all.len() as int) =~= all);
    while i < fields.len()
        invariant
            i <= fields.len(),
            all == fields_model(fields@),
            find_text(all, name@) == find_text(all.subrange(i as int, all.len() as int), name@),
        decreases fields.len() - i,
    {
        let ghost rest = all.subrange(i as int, all.len() as int);
        assert(rest[0] == fields@[i as int]@);
        assert(rest.drop_first() =~= all.subrange(i + 1, all.len() as int));
        if same_text(fields[i].name.as_str(), name) {
            return fields[i].text.clone();
        }
        i = i + 1;
    }
    None
}

/// Decodes a bare tag.
pub fn decode_tag(tag: &str) -> (r: Result<S2C, DecodeError>)
    ensures
        decoded_model(r) == decode_bare(tag@),
{
    if same_text(tag, "Start") {
        Ok(S2C::Start)
    } else if same_text(tag, "Skip") {
        Ok(S2C::Skip)
    } else if same_text(tag, "Play") || same_text(tag, "ConnectNotification") || same_text(
        tag,
        "DisconnectNotification",
    ) {
        Err(DecodeError::MissingField)
    } else {
        Err(DecodeError::UnknownTag)
    }
}

/// Decodes a tag with its payload.
pub fn decode_tagged(entry: &Entry) -> (r: Result<S2C, DecodeError>)
    ensures
        decoded_model(r) == decode_entry(entry@),
{
    let tag = entry.tag.as_str();
    if same_text(tag, "ConnectNotification") {
        match lookup(&entry.fields, "id") {
            Some(id) => Ok(S2C::ConnectNotification(ConnectNotification { id })),
            None => Err(DecodeError::MissingField),
        }
    } else if same_text(tag, "DisconnectNotification") {
        match lookup(&entry.fields, "id") {
            Some(id) => Ok(S2C::DisconnectNotification(DisconnectNotification { id })),
            None => Err(DecodeError::MissingField),
        }
    } else if same_text(tag, "Play") {
        match lookup(&entry.fields, "yt_link") {
            Some(yt_link) => Ok(S2C::Play { yt_link }),
            None => Err(DecodeError::MissingField),
        }
    } else if same_text(tag, "Start") || same_text(tag, "Skip") {
        Err(DecodeError::NotAMessage)
    } else {
        Err(DecodeError::UnknownTag)
    }
}

/// Decodes a frame from its two readings: as a JSON string and as a JSON
/// object of objects.
pub fn decode_parts(bare: Option<String>, table: Option<Vec<Entry>>) -> (r: Result<
    S2C,
    DecodeError,
>)
    ensures
        decoded_model(r) == decode_layout(text_model(bare), table_model(table)),
{
    match bare {
        Some(tag) => decode_tag(tag.as_str()),
        None => match table {
            Some(t) => {
                if t.len() == 1 {
                    decode_tagged(&t[0])
                } else {
                    Err(DecodeError::NotAMessage)
                }
            },
            None => Err(DecodeError::NotAMessage),
        },
    }
}

/// Decodes the text of one frame into a server message.
pub fn decode(text: &str) -> (r: Result<S2C, DecodeError>)
    ensures
        decoded_model(r) == decode_spec(text@),
{
    let bare = read_string(text);
    let table = read_table(text);
    decode_parts(bare, table)
}

/// Every server message is recovered from the layout in which it travels.
pub proof fn law_decode_inverts_layout(m: ServerMsg)
    ensures
        decode_layout(layout_of(m).0, layout_of(m).1) == Ok::<ServerMsg, DecodeError>(m),
{
    reveal_strlit("Start");
    reveal_strlit("Skip");
    reveal_strlit("Play");
    reveal_strlit("ConnectNotification");
    reveal_strlit("DisconnectNotification");
    reveal_strlit("id");
    reveal_strlit("yt_link");
    match m {
        ServerMsg::Connect { id } => {
            let e = one_field("ConnectNotification"@, "id"@, id);
            assert(find_text(e.fields, "id"@) == Some(id));
        },
        ServerMsg::Disconnect { id } => {
            let e = one_field("DisconnectNotification"@, "id"@, id);
            assert(find_text(e.fields, "id"@) == Some(id));
            assert("DisconnectNotification"@.len() != "ConnectNotification"@.len());
        },
        ServerMsg::Play { yt_link } => {
            let e = one_field("Play"@, "yt_link"@, yt_link);
            assert(find_text(e.fields, "yt_link"@) == Some(yt_link));
            assert("Play"@.len() != "ConnectNotification"@.len());
            assert("Play"@.len() != "DisconnectNotification"@.len());
        },
        ServerMsg::Start => {},
        ServerMsg::Skip => {
            assert("Skip"@.len() != "Start"@.len());
        },
    }
}

} // verus!
