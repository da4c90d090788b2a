//! One handler for each route.
//!
//! A handler takes what its route takes from the request (nothing, or the
//! user id) and gives the complete response. Handlers share nothing that
//! changes: the documents are read-only, and every JSON body is built in a
//! buffer of its own.

use vstd::prelude::*;
use vstd::utf8::encode_utf8;

use crate::assets::{AssetStore, AssetsView};
use crate::buffer::{bytes_from_static, max_buffer_len};
use crate::json::{is_plain, lemma_escape_len};
use crate::record::{
    health_json, lemma_object_1_plain, lemma_user_json_plain, lemma_user_json_reads_back,
    message_json, read_user, user_json, user_name, Health, HealthStatus, Message, UserRecord,
    GREETING, HEALTH_OPEN, MESSAGE_OPEN, NAME_PREFIX,
};
use crate::response::{ok_response, ContentType, Response, ResponseView};
use crate::text::{lemma_utf8_concat, lemma_utf8_len};
use crate::writer::{EncodeError, Writer};

verus! {

/// Room for the health document without growing.
pub const HEALTH_CAPACITY: usize = 16;

/// Room for the greeting document without growing.
pub const MESSAGE_CAPACITY: usize = 32;

/// Room for a user document with a short id without growing.
pub const USER_CAPACITY: usize = 64;

/// What `GET /` is answered with.
pub open spec fn index_response(assets: AssetsView) -> ResponseView {
    ok_response(ContentType::Html, assets.index)
}

/// What `GET /about` is answered with.
pub open spec fn about_response(assets: AssetsView) -> ResponseView {
    ok_response(ContentType::Html, assets.about)
}

/// What `GET /plaintext` is answered with.
pub open spec fn plaintext_response() -> ResponseView {
    ok_response(ContentType::Plain, encode_utf8(GREETING@))
}

/// What `GET /json` is answered with.
pub open spec fn json_response() -> ResponseView {
    ok_response(ContentType::Json, message_json(GREETING@))
}

/// What `GET /api/health` is answered with.
pub open spec fn health_response() -> ResponseView {
    ok_response(ContentType::Json, health_json(Health::Healthy))
}

/// What `GET /api/users/{id}` is answered with.
pub open spec fn user_response(id: Seq<char>) -> ResponseView {
    ok_response(ContentType::Json, user_json(id, user_name(id)))
}

/// The greeting document is short enough for any buffer.
proof fn lemma_greeting_fits()
    ensures
        message_json(GREETING@).len() <= max_buffer_len(),
{
    reveal_strlit("{\"message\":");
    reveal_strlit("Hello, World!");
    reveal_strlit("}");
    lemma_utf8_len("{\"message\":"@);
    lemma_utf8_len("Hello, World!"@);
    lemma_utf8_len("}"@);
    lemma_escape_len(encode_utf8("Hello, World!"@));
}

/// The health document is short enough for any buffer.
proof fn lemma_health_fits()
    ensures
        health_json(Health::Healthy).len() <= max_buffer_len(),
{
    reveal_strlit("{\"status\":");
    reveal_strlit("ok");
    reveal_strlit("}");
    lemma_utf8_len("{\"status\":"@);
    lemma_utf8_len("ok"@);
    lemma_utf8_len("}"@);
    lemma_escape_len(encode_utf8("ok"@));
}

/// `GET /`: the front page, as it is in the store.
pub fn index(assets: &AssetStore) -> (r: Response)
    ensures
        r@ == index_response(assets@),
{
    let asset = assets.index();
    Response::ok(asset.content_type, bytes_from_static(asset.bytes))
}

/// `GET /about`: the about page, as it is in the store.
pub fn about(assets: &AssetStore) -> (r: Response)
    ensures
        r@ == about_response(assets@),
{
    let asset = assets.about();
    Response::ok(asset.content_type, bytes_from_static(asset.bytes))
}

/// `GET /plaintext`: the greeting, with no line end after it.
pub fn plaintext() -> (r: Response)
    ensures
        r@ == plaintext_response(),
{
    Response::ok(ContentType::Plain, bytes_from_static(GREETING.as_bytes()))
}

/// `GET /json`: the greeting as a JSON document.
pub fn json() -> (r: Response)
    ensures
        r@ == json_response(),
{
    proof {
        lemma_greeting_fits();
    }
    let message = Message::hello();
    let mut body = Writer::with_capacity(MESSAGE_CAPACITY);
    match message.json_write(&mut body) {
        Ok(_) => Response::ok(ContentType::Json, body.freeze()),
        Err(_) => unreached(),
    }
}

/// `GET /api/health`: the state of health as a JSON document.
pub fn health() -> (r: Response)
    ensures
        r@ == health_response(),
{
    proof {
        lemma_health_fits();
    }
    let status = HealthStatus { status: Health::Healthy };
    let mut body = Writer::with_capacity(HEALTH_CAPACITY);
    match status.json_write(&mut body) {
        Ok(_) => Response::ok(ContentType::Json, body.freeze()),
        Err(_) => unreached(),
    }
}

/// `GET /api/users/{id}`: the user with the given id as a JSON document. The
/// id is taken as it is. Fails exactly when the document would be longer
/// than a buffer may be.
pub fn get_user(id: &str) -> (r: Result<Response, EncodeError>)
    ensures
        r is Ok <==> user_response(id@).body.len() <= max_buffer_len(),
        r matches Ok(response) ==> response@ == user_response(id@),
{
    let user = UserRecord::new(id);
    let mut body = Writer::with_capacity(USER_CAPACITY);
    match user.json_write(&mut body) {
        Ok(_) => Ok(Response::ok(ContentType::Json, body.freeze())),
        Err(e) => Err(e),
    }
}

/// The greeting document is the text `{"message":"Hello, World!"}`.
pub proof fn lemma_greeting_document()
    ensures
        json_response().body == encode_utf8("{\"message\":\"Hello, World!\"}"@),
{
    reveal_strlit("{\"message\":");
    reveal_strlit("Hello, World!");
    reveal_strlit("\"");
    reveal_strlit("\"}");
    reveal_strlit("{\"message\":\"Hello, World!\"}");
    lemma_object_1_plain(MESSAGE_OPEN@, GREETING@);
    assert("{\"message\":"@ + "\""@ + GREETING@ + "\"}"@ =~= "{\"message\":\"Hello, World!\"}"@);
}

/// The health document is the text `{"status":"ok"}`.
pub proof fn lemma_health_document()
    ensures
        health_response().body == encode_utf8("{\"status\":\"ok\"}"@),
{
    reveal_strlit("{\"status\":");
    reveal_strlit("ok");
    reveal_strlit("\"");
    reveal_strlit("\"}");
    reveal_strlit("{\"status\":\"ok\"}");
    lemma_object_1_plain(HEALTH_OPEN@, Health::Healthy.text());
    assert("{\"status\":"@ + "\""@ + "ok"@ + "\"}"@ =~= "{\"status\":\"ok\"}"@);
}

/// The document for a user holds the id it was asked for and the name made
/// from it: its `id` member reads back as the id, its `name` member as
/// `User ` followed by the id. This holds of every id, the empty one and
/// those with quotes, backslashes, control characters or characters beyond
/// ASCII included.
pub proof fn lemma_user_document(id: Seq<char>)
    ensures
        read_user(user_response(id).body) == Some(
            (encode_utf8(id), encode_utf8(NAME_PREFIX@) + encode_utf8(id)),
        ),
{
    lemma_user_json_reads_back(id, user_name(id));
    lemma_utf8_concat(NAME_PREFIX@, id);
}

/// For an id of plain characters, the document for a user is the text
/// `{"id":"<id>","name":"User <id>"}`.
pub proof fn lemma_user_document_plain(id: Seq<char>)
    requires
        is_plain(id),
    ensures
        user_response(id).body == encode_utf8(
            "{\"id\":\""@ + id + "\",\"name\":\"User "@ + id + "\"}"@,
        ),
{
    lemma_user_json_plain(id);
}

} // verus!
