//! The envelope: the tagged `{kind, contents}` unit exchanged with clients,
//! and its form on the wire, a flat JSON object of two string fields.

use crate::channels::{Message, MessageView, RelayError};
use vstd::prelude::*;
use vstd::string::*;

verus! {

/// The three kinds of envelope.
#[derive(Clone, Copy, Debug, PartialEq, Eq, Structural)]
pub enum MessageKind {
    /// Tells a new session the id that it was given.
    Uuid,
    /// Carries the text of a message.
    Message,
    /// Carries the number of sessions, in decimal.
    ConnectedUsers,
}

impl MessageKind {
    /// The fixed tag that stands for this kind on the wire.
    pub open spec fn tag(self) -> Seq<char> {
        match self {
            MessageKind::Uuid => "uuid"@,
            MessageKind::Message => "message"@,
            MessageKind::ConnectedUsers => "connected_users"@,
        }
    }

    /// Returns the wire tag of this kind.
    pub fn build(&self) -> (tag: String)
        ensures
            tag@ == self.tag(),
    {
        match self {
            MessageKind::ConnectedUsers => String::from_str("connected_users"),
            MessageKind::Message => String::from_str("message"),
            MessageKind::Uuid => String::from_str("uuid"),
        }
    }

    /// Reads a wire tag: the kind that it stands for, and nothing for any
    /// other text. What [`MessageKind::build`] writes is read back.
    pub fn parse(tag: &str) -> (kind: Option<MessageKind>)
        ensures
            forall|k: MessageKind| kind == Some(k) <==> k.tag() == tag@,
    {
        proof {
            lemma_tags_differ(MessageKind::Uuid, MessageKind::Message);
            lemma_tags_differ(MessageKind::Uuid, MessageKind::ConnectedUsers);
            lemma_tags_differ(MessageKind::Message, MessageKind::ConnectedUsers);
        }
        let tag = String::from_str(tag);
        if tag.eq(&String::from_str("uuid")) {
            Some(MessageKind::Uuid)
        } else if tag.eq(&String::from_str("message")) {
            Some(MessageKind::Message)
        } else if tag.eq(&String::from_str("connected_users")) {
            Some(MessageKind::ConnectedUsers)
        } else {
            None
        }
    }
}

/// No two kinds share a tag, so a tag can be read back.
pub proof fn lemma_tags_differ(a: MessageKind, b: MessageKind)
    ensures
        a.tag() == b.tag() <==> a == b,
{
    reveal_strlit("uuid");
    reveal_strlit("message");
    reveal_strlit("connected_users");
    assert("uuid"@.len() == 4);
    assert("message"@.len() == 7);
    assert("connected_users"@.len() == 15);
}

/// The character of one decimal digit.
pub open spec fn digit(d: nat) -> char {
    if d == 0 {
        '0'
    } else if d == 1 {
        '1'
    } else if d == 2 {
        '2'
    } else if d == 3 {
        '3'
    } else if d == 4 {
        '4'
    } else if d == 5 {
        '5'
    } else if d == 6 {
        '6'
    } else if d == 7 {
        '7'
    } else if d == 8 {
        '8'
    } else {
        '9'
    }
}

/// A number written in decimal, without sign or leading zeros.
pub open spec fn decimal(n: nat) -> Seq<char>
    decreases n,
{
    if n < 10 {
        seq![digit(n)]
    } else {
        decimal(n / 10).push(digit(n % 10))
    }
}

/// The text of one decimal digit.
fn digit_text(d: usize) -> (text: &'static str)
    requires
        d < 10,
    ensures
        text@ == seq![digit(d as nat)],
{
    proof {
        reveal_strlit("0");
        reveal_strlit("1");
        reveal_strlit("2");
        reveal_strlit("3");
        reveal_strlit("4");
        reveal_strlit("5");
        reveal_strlit("6");
        reveal_strlit("7");
        reveal_strlit("8");
        reveal_strlit("9");
    }
    let text = if d == 0 {
        "0"
    } else if d == 1 {
        "1"
    } else if d == 2 {
        "2"
    } else if d == 3 {
        "3"
    } else if d == 4 {
        "4"
    } else if d == 5 {
        "5"
    } else if d == 6 {
        "6"
    } else if d == 7 {
        "7"
    } else if d == 8 {
        "8"
    } else {
        "9"
    };
    assert(text@ =~= seq![digit(d as nat)]);
    text
}

/// Writes a count in decimal, as the contents of a `connected_users`
/// envelope carry it.
pub fn decimal_string(n: usize) -> (text: String)
    ensures
        text@ == decimal(n as nat),
    decreases n,
{
    if n < 10 {
        String::from_str(digit_text(n))
    } else {
        let mut text = decimal_string(n / 10);
        text.append(digit_text(n % 10));
        assert(text@ =~= decimal(n as nat));
        text
    }
}

/// The character of one hexadecimal digit, in lower case.
pub open spec fn hex_digit(d: nat) -> char {
    if d < 10 {
        digit(d)
    } else if d == 10 {
        'a'
    } else if d == 11 {
        'b'
    } else if d == 12 {
        'c'
    } else if d == 13 {
        'd'
    } else if d == 14 {
        'e'
    } else {
        'f'
    }
}

/// Whether a character stands for itself inside a JSON string literal:
/// every character but the double quote, the backslash and the control
/// characters below the space.
pub open spec fn is_plain(c: char) -> bool {
    c != '"' && c != '\\' && c as u32 >= 0x20
}

/// One character as it stands inside a JSON string literal. The double
/// quote and the backslash get a backslash in front, five control
/// characters have a letter of their own, the other control characters
/// are written by their number, and every other character stands for
/// itself.
pub open spec fn json_char(c: char) -> Seq<char> {
    if c == '"' {
        seq!['\\', '"']
    } else if c == '\\' {
        seq!['\\', '\\']
    } else if c == '\u{8}' {
        seq!['\\', 'b']
    } else if c == '\t' {
        seq!['\\', 't']
    } else if c == '\n' {
        seq!['\\', 'n']
    } else if c == '\u{c}' {
        seq!['\\', 'f']
    } else if c == '\r' {
        seq!['\\', 'r']
    } else if (c as u32) < 0x20 {
        seq!['\\', 'u', '0', '0', hex_digit((c as u32 / 16) as nat), hex_digit((c as u32 % 16) as nat)]
    } else {
        seq![c]
    }
}

/// A text as it stands inside a JSON string literal, character by
/// character.
pub open spec fn json_escaped(text: Seq<char>) -> Seq<char>
    decreases text.len(),
{
    if text.len() == 0 {
        Seq::empty()
    } else {
        json_escaped(text.drop_last()) + json_char(text.last())
    }
}

/// The JSON string literal for `text`: the text between double quotes,
/// with the characters escaped that JSON does not take as they are.
pub open spec fn json_string(text: Seq<char>) -> Seq<char> {
    seq!['"'] + json_escaped(text) + seq!['"']
}

/// A text of plain characters is its own escaped form: its JSON string
/// literal is the text between double quotes.
pub proof fn lemma_plain_text(text: Seq<char>)
    requires
        forall|i: int| 0 <= i < text.len() ==> is_plain(#[trigger] text[i]),
    ensures
        json_escaped(text) == text,
        json_string(text) == seq!['"'] + text + seq!['"'],
    decreases text.len(),
{
    if text.len() > 0 {
        lemma_plain_text(text.drop_last());
        assert(is_plain(text[text.len() - 1]));
        assert(json_escaped(text) =~= text);
    } else {
        assert(json_escaped(text) =~= text);
    }
}

/// The error of serde_json.
#[verifier::external_type_specification]
#[verifier::external_body]
pub struct ExJsonError(serde_json::Error);

/// `serde_json::to_string` on a string slice. serde_json names two ways
/// in which the call can fail, a value that refuses to be written and a
/// map whose keys are no strings, and a string slice is neither: the call
/// succeeds. It writes into memory the JSON string literal for the text,
/// with the escapes of [`json_char`].
#[verifier::external_body]
fn encode_string(text: &str) -> (json: Result<String, serde_json::Error>)
    ensures
        json is Ok,
        json matches Ok(encoded) ==> encoded@ == json_string(text@),
{
    serde_json::to_string(text)
}

/// The wire form of an envelope whose two fields are already JSON string
/// literals: a flat object, `kind` first.
pub open spec fn object_text(kind: Seq<char>, contents: Seq<char>) -> Seq<char> {
    "{\"kind\":"@ + kind + ",\"contents\":"@ + contents + "}"@
}

/// The wire form of the envelope `{kind, contents}`.
pub open spec fn wire_text(kind: Seq<char>, contents: Seq<char>) -> Seq<char> {
    object_text(json_string(kind), json_string(contents))
}

/// The websocket message that carries an envelope of `kind` with
/// `contents`.
pub open spec fn envelope(kind: MessageKind, contents: Seq<char>) -> MessageView {
    MessageView::Text(wire_text(kind.tag(), contents))
}

/// An envelope: its kind, as a tag, and its contents, always a string.
#[derive(Debug)]
pub struct Object {
    pub kind: String,
    pub contents: String,
}

impl Object {
    /// The envelope of `kind` that carries `contents` unchanged.
    pub fn build(kind: MessageKind, contents: String) -> (object: Object)
        ensures
            object.kind@ == kind.tag(),
            object.contents@ == contents@,
    {
        let kind = kind.build();

        Object { kind, contents }
    }

    /// Puts two encoded fields into the text message that carries the
    /// object. Where the encoding of either field failed there is no
    /// message.
    pub fn frame(
        kind: Result<String, serde_json::Error>,
        contents: Result<String, serde_json::Error>,
    ) -> (message: Result<Message, RelayError>)
        ensures
            message is Ok <==> kind is Ok && contents is Ok,
            message matches Ok(framed) ==> framed@ == MessageView::Text(
                object_text(kind->Ok_0@, contents->Ok_0@),
            ),
            message matches Err(error) ==> error == RelayError::Encoding,
    {
        match kind {
            Ok(kind) => match contents {
                Ok(contents) => {
                    let mut json = String::from_str("{\"kind\":");
                    json.append(kind.as_str());
                    json.append(",\"contents\":");
                    json.append(contents.as_str());
                    json.append("}");
                    Ok(Message::Text(json))
                },
                Err(_) => Err(RelayError::Encoding),
            },
            Err(_) => Err(RelayError::Encoding),
        }
    }

    /// The text message that carries this envelope on the wire. An
    /// envelope of two strings can always be written.
    pub fn to_message(&self) -> (message: Result<Message, RelayError>)
        ensures
            message is Ok,
            message matches Ok(framed) ==> framed@ == MessageView::Text(
                wire_text(self.kind@, self.contents@),
            ),
    {
        let kind = encode_string(self.kind.as_str());
        let contents = encode_string(self.contents.as_str());

        Object::frame(kind, contents)
    }
}

/// The text message that carries an envelope of `kind` with `contents`.
pub fn envelope_message(kind: MessageKind, contents: String) -> (message: Result<
    Message,
    RelayError,
>)
    ensures
        message is Ok,
        message matches Ok(framed) ==> framed@ == envelope(kind, contents@),
{
    Object::build(kind, contents).to_message()
}

/// Whether a text is made of plain characters only.
pub open spec fn all_plain(text: Seq<char>) -> bool {
    forall|i: int| 0 <= i < text.len() ==> is_plain(#[trigger] text[i])
}

/// The three tags are made of plain characters.
pub proof fn lemma_tag_is_plain(kind: MessageKind)
    ensures
        all_plain(kind.tag()),
{
    reveal_strlit("uuid");
    reveal_strlit("message");
    reveal_strlit("connected_users");
    match kind {
        MessageKind::Uuid => {
            assert("uuid"@.len() == 4);
        assert(is_plain("uuid"@[0]));
        assert(is_plain("uuid"@[1]));
        assert(is_plain("uuid"@[2]));
        assert(is_plain("uuid"@[3]));
        },
        MessageKind::Message => {
            assert("message"@.len() == 7);
        assert(is_plain("message"@[0]));
        assert(is_plain("message"@[1]));
        assert(is_plain("message"@[2]));
        assert(is_plain("message"@[3]));
        assert(is_plain("message"@[4]));
        assert(is_plain("message"@[5]));
        assert(is_plain("message"@[6]));
        },
        MessageKind::ConnectedUsers => {
            assert("connected_users"@.len() == 15);
        assert(is_plain("connected_users"@[0]));
        assert(is_plain("connected_users"@[1]));
        assert(is_plain("connected_users"@[2]));
        assert(is_plain("connected_users"@[3]));
        assert(is_plain("connected_users"@[4]));
        assert(is_plain("connected_users"@[5]));
        assert(is_plain("connected_users"@[6]));
        assert(is_plain("connected_users"@[7]));
        assert(is_plain("connected_users"@[8]));
        assert(is_plain("connected_users"@[9]));
        assert(is_plain("connected_users"@[10]));
        assert(is_plain("connected_users"@[11]));
        assert(is_plain("connected_users"@[12]));
        assert(is_plain("connected_users"@[13]));
        assert(is_plain("connected_users"@[14]));
        },
    }
}

/// A number in decimal is made of plain characters.
pub proof fn lemma_decimal_is_plain(n: nat)
    ensures
        all_plain(decimal(n)),
    decreases n,
{
    if n >= 10 {
        lemma_decimal_is_plain(n / 10);
    }
}

/// The wire form of an envelope whose contents are plain characters, a
/// count or an id for one: the tag and the contents as they are, each
/// between double quotes.
pub proof fn lemma_plain_envelope(kind: MessageKind, contents: Seq<char>)
    requires
        all_plain(contents),
    ensures
        envelope(kind, contents) == MessageView::Text(
            "{\"kind\":\""@ + kind.tag() + "\",\"contents\":\""@ + contents + "\"}"@,
        ),
{
    lemma_tag_is_plain(kind);
    lemma_plain_text(kind.tag());
    lemma_plain_text(contents);
    reveal_strlit("{\"kind\":");
    reveal_strlit(",\"contents\":");
    reveal_strlit("}");
    reveal_strlit("{\"kind\":\"");
    reveal_strlit("\",\"contents\":\"");
    reveal_strlit("\"}");
    let quote = seq!['"'];
    assert("{\"kind\":\""@ =~= "{\"kind\":"@ + quote);
    assert("\",\"contents\":\""@ =~= quote + ",\"contents\":"@ + quote);
    assert("\"}"@ =~= quote + "}"@);
    assert(wire_text(kind.tag(), contents) =~= "{\"kind\":\""@ + kind.tag()
        + "\",\"contents\":\""@ + contents + "\"}"@);
}

/// The wire form of a `connected_users` envelope: the count in decimal
/// between double quotes, as a string and not as a number.
pub proof fn lemma_count_envelope(count: nat)
    ensures
        envelope(MessageKind::ConnectedUsers, decimal(count)) == MessageView::Text(
            "{\"kind\":\"connected_users\",\"contents\":\""@ + decimal(count) + "\"}"@,
        ),
{
    lemma_decimal_is_plain(count);
    lemma_plain_envelope(MessageKind::ConnectedUsers, decimal(count));
    reveal_strlit("{\"kind\":\"");
    reveal_strlit("\",\"contents\":\"");
    reveal_strlit("connected_users");
    reveal_strlit("{\"kind\":\"connected_users\",\"contents\":\"");
    assert("{\"kind\":\"connected_users\",\"contents\":\""@ =~= "{\"kind\":\""@
        + "connected_users"@ + "\",\"contents\":\""@);
}

} // verus!
