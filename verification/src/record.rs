//! The records that are sent as JSON, and their encoders.
//!
//! Each record is a JSON object whose members are strings. The member names,
//! their order and the punctuation between them are fixed here; the string
//! literals for the values come from the JSON writer.

use vstd::prelude::*;
use vstd::string::StringExecFns;
use vstd::utf8::encode_utf8;

use crate::buffer::max_buffer_len;
use crate::json::{
    is_plain, is_plain_char, json_string, lemma_json_string_plain, lemma_read_json_string,
    read_string,
};
use crate::text::{lemma_utf8_concat, lemma_utf8_injective};
use crate::writer::{EncodeError, Writer};

verus! {

/// The states of health that the service can report.
#[derive(Clone, Copy, Debug, PartialEq, Eq, Structural)]
pub enum Health {
    Healthy,
}

impl Health {
    /// The word that stands for this state on the wire.
    pub open spec fn text(self) -> Seq<char> {
        match self {
            Health::Healthy => "ok"@,
        }
    }

    /// The word that stands for this state on the wire.
    pub fn as_str(&self) -> (s: &'static str)
        ensures
            s@ == self.text(),
    {
        match self {
            Health::Healthy => "ok",
        }
    }
}

/// The answer to a health check.
#[derive(Clone, Copy, Debug)]
pub struct HealthStatus {
    pub status: Health,
}

/// The greeting that the service sends.
pub const GREETING: &'static str = "Hello, World!";

/// A greeting.
#[derive(Clone, Copy, Debug)]
pub struct Message {
    pub message: &'static str,
}

/// A user as it is echoed back: the id that was asked for, and a name made
/// from it.
#[derive(Debug)]
pub struct UserRecord<'a> {
    pub id: &'a str,
    pub name: String,
}

/// How the health document opens.
pub const HEALTH_OPEN: &'static str = "{\"status\":";

/// How the greeting document opens.
pub const MESSAGE_OPEN: &'static str = "{\"message\":";

/// How a user document opens.
pub const USER_OPEN: &'static str = "{\"id\":";

/// What stands between the two members of a user document.
pub const USER_NEXT: &'static str = ",\"name\":";

/// How every document closes.
pub const CLOSE: &'static str = "}";

/// What a user's name begins with.
pub const NAME_PREFIX: &'static str = "User ";

/// A JSON object with one string member: `open` is everything up to and
/// including the colon.
pub open spec fn object_1(open: Seq<char>, value: Seq<char>) -> Seq<u8> {
    encode_utf8(open) + json_string(encode_utf8(value)) + encode_utf8(CLOSE@)
}

/// A JSON object with two string members: `open` is everything up to and
/// including the first colon, `next` the comma, the second name and its
/// colon.
pub open spec fn object_2(
    open: Seq<char>,
    first: Seq<char>,
    next: Seq<char>,
    second: Seq<char>,
) -> Seq<u8> {
    encode_utf8(open) + json_string(encode_utf8(first)) + encode_utf8(next) + json_string(
        encode_utf8(second),
    ) + encode_utf8(CLOSE@)
}

/// `{"status":"<word>"}`
pub open spec fn health_json(status: Health) -> Seq<u8> {
    object_1(HEALTH_OPEN@, status.text())
}

/// `{"message":"<message>"}`
pub open spec fn message_json(message: Seq<char>) -> Seq<u8> {
    object_1(MESSAGE_OPEN@, message)
}

/// `{"id":"<id>","name":"<name>"}`
pub open spec fn user_json(id: Seq<char>, name: Seq<char>) -> Seq<u8> {
    object_2(USER_OPEN@, id, USER_NEXT@, name)
}

/// The name that a user with the given id goes by: `User <id>`.
pub open spec fn user_name(id: Seq<char>) -> Seq<char> {
    NAME_PREFIX@ + id
}

/// Appends `punctuation` and then the JSON string literal for `value`. On
/// failure the writer may be left holding the punctuation.
fn write_member(writer: &mut Writer, punctuation: &str, value: &str) -> (r: Result<
    (),
    EncodeError,
>)
    ensures
        r is Ok <==> old(writer)@.len() + encode_utf8(punctuation@).len() + json_string(
            encode_utf8(value@),
        ).len() <= max_buffer_len(),
        match r {
            Ok(()) => final(writer)@ == old(writer)@ + encode_utf8(punctuation@) + json_string(
                encode_utf8(value@),
            ),
            Err(_) => old(writer)@.is_prefix_of(final(writer)@),
        },
{
    match writer.write(punctuation.as_bytes()) {
        Ok(_) => {},
        Err(e) => { return Err(e); },
    }
    match writer.write_json_string(value) {
        Ok(_) => Ok(()),
        Err(e) => Err(e),
    }
}

/// Settles the writing of one object that began when the writer held `start`
/// bytes: reports the object's length, or cuts the writer back to where it
/// was.
fn close_object(writer: &mut Writer, start: usize, written: Result<(), EncodeError>) -> (r: Result<
    usize,
    EncodeError,
>)
    requires
        start <= old(writer)@.len(),
    ensures
        match (written, r) {
            (Ok(()), Ok(n)) => final(writer)@ == old(writer)@ && n == old(writer)@.len() - start,
            (Err(_), Err(_)) => final(writer)@ == old(writer)@.subrange(0, start as int),
            _ => false,
        },
{
    match written {
        Ok(()) => Ok(writer.len() - start),
        Err(e) => {
            writer.truncate(start);
            Err(e)
        },
    }
}

/// Appends an object with one string member; see [`object_1`].
fn write_object_1(writer: &mut Writer, open: &str, value: &str) -> (r: Result<usize, EncodeError>)
    ensures
        r is Ok <==> old(writer)@.len() + object_1(open@, value@).len() <= max_buffer_len(),
        match r {
            Ok(n) => final(writer)@ == old(writer)@ + object_1(open@, value@) && n == object_1(
                open@,
                value@,
            ).len(),
            Err(_) => final(writer)@ == old(writer)@,
        },
{
    let start: usize = writer.len();
    let written = match write_member(writer, open, value) {
        Ok(()) => match writer.write(CLOSE.as_bytes()) {
            Ok(_) => Ok(()),
            Err(e) => Err(e),
        },
        Err(e) => Err(e),
    };
    close_object(writer, start, written)
}

impl HealthStatus {
    /// The bytes that this record is sent as.
    pub open spec fn json(&self) -> Seq<u8> {
        health_json(self.status)
    }

    /// Appends this record's JSON to the writer and reports its length.
    /// Fails, and leaves the writer as it was, exactly when the writer would
    /// grow beyond its limit.
    pub fn json_write(&self, writer: &mut Writer) -> (r: Result<usize, EncodeError>)
        ensures
            r is Ok <==> old(writer)@.len() + self.json().len() <= max_buffer_len(),
            match r {
                Ok(n) => final(writer)@ == old(writer)@ + self.json() && n == self.json().len(),
                Err(_) => final(writer)@ == old(writer)@,
            },
    {
        write_object_1(writer, HEALTH_OPEN, self.status.as_str())
    }
}

impl Message {
    /// The message that holds the service's greeting.
    pub fn hello() -> (m: Message)
        ensures
            m.message@ == GREETING@,
    {
        Message { message: GREETING }
    }

    /// The bytes that this record is sent as.
    pub open spec fn json(&self) -> Seq<u8> {
        message_json(self.message@)
    }

    /// Appends this record's JSON to the writer and reports its length.
    /// Fails, and leaves the writer as it was, exactly when the writer would
    /// grow beyond its limit.
    pub fn json_write(&self, writer: &mut Writer) -> (r: Result<usize, EncodeError>)
        ensures
            r is Ok <==> old(writer)@.len() + self.json().len() <= max_buffer_len(),
            match r {
                Ok(n) => final(writer)@ == old(writer)@ + self.json() && n == self.json().len(),
                Err(_) => final(writer)@ == old(writer)@,
            },
    {
        write_object_1(writer, MESSAGE_OPEN, self.message)
    }

    /// The bytes that this record is sent as in plain text: the message
    /// itself, with nothing before or after it.
    pub open spec fn text(&self) -> Seq<u8> {
        encode_utf8(self.message@)
    }

    /// Appends this record as plain text to the writer and reports its
    /// length. Fails, and leaves the writer as it was, exactly when the
    /// writer would grow beyond its limit.
    pub fn text_write(&self, writer: &mut Writer) -> (r: Result<usize, EncodeError>)
        ensures
            r is Ok <==> old(writer)@.len() + self.text().len() <= max_buffer_len(),
            match r {
                Ok(n) => final(writer)@ == old(writer)@ + self.text() && n == self.text().len(),
                Err(_) => final(writer)@ == old(writer)@,
            },
    {
        writer.write(self.message.as_bytes())
    }
}

impl<'a> UserRecord<'a> {
    /// The record for the user with the given id. The id is taken as it is:
    /// any string will do, the empty one too.
    pub fn new(id: &'a str) -> (user: UserRecord<'a>)
        ensures
            user.id@ == id@,
            user.name@ == user_name(id@),
    {
        let mut name = String::from_str(NAME_PREFIX);
        name.append(id);
        UserRecord { id, name }
    }

    /// The bytes that this record is sent as.
    pub open spec fn json(&self) -> Seq<u8> {
        user_json(self.id@, self.name@)
    }

    /// Appends this record's JSON to the writer and reports its length.
    /// Fails, and leaves the writer as it was, exactly when the writer would
    /// grow beyond its limit.
    pub fn json_write(&self, writer: &mut Writer) -> (r: Result<usize, EncodeError>)
        ensures
            r is Ok <==> old(writer)@.len() + self.json().len() <= max_buffer_len(),
            match r {
                Ok(n) => final(writer)@ == old(writer)@ + self.json() && n == self.json().len(),
                Err(_) => final(writer)@ == old(writer)@,
            },
    {
        let start: usize = writer.len();
        let written = match write_member(writer, USER_OPEN, self.id) {
            Ok(()) => match write_member(writer, USER_NEXT, self.name.as_str()) {
                Ok(()) => match writer.write(CLOSE.as_bytes()) {
                    Ok(_) => Ok(()),
                    Err(e) => Err(e),
                },
                Err(e) => Err(e),
            },
            Err(e) => Err(e),
        };
        close_object(writer, start, written)
    }
}

/// What follows `prefix` in `b`, if `b` begins with it.
pub open spec fn after_prefix(b: Seq<u8>, prefix: Seq<u8>) -> Option<Seq<u8>> {
    if prefix.is_prefix_of(b) {
        Some(b.skip(prefix.len() as int))
    } else {
        None
    }
}

/// Reads a user document: the bytes of the string that its `id` member
/// holds, and those of its `name` member. Nothing is read from a body that
/// is not laid out as [`user_json`] lays it out.
pub open spec fn read_user(body: Seq<u8>) -> Option<(Seq<u8>, Seq<u8>)> {
    match after_prefix(body, encode_utf8(USER_OPEN@)) {
        None => None,
        Some(at_id) => match read_string(at_id) {
            None => None,
            Some((id, after_id)) => match after_prefix(after_id, encode_utf8(USER_NEXT@)) {
                None => None,
                Some(at_name) => match read_string(at_name) {
                    None => None,
                    Some((name, after_name)) => if after_name == encode_utf8(CLOSE@) {
                        Some((id, name))
                    } else {
                        None
                    },
                },
            },
        },
    }
}

/// A user document reads back as the two strings it was made from, whatever
/// characters they hold.
pub proof fn lemma_user_json_reads_back(id: Seq<char>, name: Seq<char>)
    ensures
        read_user(user_json(id, name)) == Some((encode_utf8(id), encode_utf8(name))),
{
    let open = encode_utf8(USER_OPEN@);
    let next = encode_utf8(USER_NEXT@);
    let close = encode_utf8(CLOSE@);
    let first = json_string(encode_utf8(id));
    let second = json_string(encode_utf8(name));
    let body = user_json(id, name);
    assert(body == open + first + next + second + close);
    let at_id = first + (next + second + close);
    assert(open =~= body.subrange(0, open.len() as int));
    assert(body.skip(open.len() as int) =~= at_id);
    lemma_read_json_string(encode_utf8(id), next + second + close);
    let after_id = next + second + close;
    let at_name = second + close;
    assert(next =~= after_id.subrange(0, next.len() as int));
    assert(after_id.skip(next.len() as int) =~= at_name);
    lemma_read_json_string(encode_utf8(name), close);
}

/// For a plain value, an object with one member is the text of its opening,
/// the value between quotes, and the closing brace.
pub proof fn lemma_object_1_plain(open: Seq<char>, value: Seq<char>)
    requires
        is_plain(value),
    ensures
        object_1(open, value) == encode_utf8(open + "\""@ + value + "\"}"@),
{
    reveal_strlit("}");
    reveal_strlit("\"");
    reveal_strlit("\"}");
    let q = "\""@;
    lemma_json_string_plain(value);
    lemma_utf8_concat(open, q + value + q);
    lemma_utf8_concat(open + (q + value + q), "}"@);
    assert(open + (q + value + q) + "}"@ =~= open + "\""@ + value + "\"}"@);
}

/// Users with different ids get different documents.
pub proof fn lemma_user_json_injective(id1: Seq<char>, id2: Seq<char>)
    requires
        user_json(id1, user_name(id1)) == user_json(id2, user_name(id2)),
    ensures
        id1 == id2,
{
    lemma_user_json_reads_back(id1, user_name(id1));
    lemma_user_json_reads_back(id2, user_name(id2));
    lemma_utf8_injective(id1, id2);
}

/// For an id of plain characters, the user document is the text
/// `{"id":"<id>","name":"User <id>"}`.
pub proof fn lemma_user_json_plain(id: Seq<char>)
    requires
        is_plain(id),
    ensures
        user_json(id, user_name(id)) == encode_utf8(
            "{\"id\":\""@ + id + "\",\"name\":\"User "@ + id + "\"}"@,
        ),
{
    reveal_strlit("{\"id\":");
    reveal_strlit(",\"name\":");
    reveal_strlit("}");
    reveal_strlit("\"");
    reveal_strlit("User ");
    reveal_strlit("{\"id\":\"");
    reveal_strlit("\",\"name\":\"User ");
    reveal_strlit("\"}");
    let q = "\""@;
    let name = user_name(id);
    assert(is_plain(name)) by {
        assert forall|i: int| 0 <= i < name.len() implies is_plain_char(#[trigger] name[i]) by {
            if i >= 5 {
                assert(name[i] == id[i - 5]);
            }
        }
    }
    lemma_json_string_plain(id);
    lemma_json_string_plain(name);
    let a = "{\"id\":"@;
    let b = q + id + q;
    let c = ",\"name\":"@;
    let d = q + name + q;
    let e = "}"@;
    lemma_utf8_concat(a, b);
    lemma_utf8_concat(a + b, c);
    lemma_utf8_concat(a + b + c, d);
    lemma_utf8_concat(a + b + c + d, e);
    assert(a + b + c + d + e =~= "{\"id\":\""@ + id + "\",\"name\":\"User "@ + id + "\"}"@);
}

} // verus!
