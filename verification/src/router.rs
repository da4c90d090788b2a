//! The table of routes.
//!
//! A request is matched by its method and its path. The method must be `GET`.
//! Five paths are matched letter for letter; the sixth, `/api/users/{id}`,
//! takes any one non-empty segment in the place of `{id}`. A request that
//! matches nothing is not answered here: what is sent then is for the
//! transport to decide.
//!
//! Paths are matched as they are given. The segment that stands for the id is
//! handed to the handler unchanged: a transport that resolves percent-escapes
//! does so on its side of the border.

use vstd::prelude::*;
use vstd::utf8::is_ascii_chars_encode_utf8;

use crate::assets::{AssetStore, AssetsView};
use crate::buffer::max_buffer_len;
use crate::handlers::{
    about, about_response, get_user, health, health_response, index, index_response, json,
    json_response, plaintext, plaintext_response, user_response,
};
use crate::response::{ContentType, Response, ResponseView, SERVER_ID};
use crate::text::{contains_ascii, same_text, strip_ascii_prefix};
use crate::writer::EncodeError;

verus! {

/// A matched route, with what it takes from the path.
#[derive(Clone, Copy, Debug)]
pub enum Route<'a> {
    Index,
    About,
    Plaintext,
    Json,
    Health,
    User(&'a str),
}

/// A matched route as plain values.
pub enum RouteView {
    Index,
    About,
    Plaintext,
    Json,
    Health,
    User(Seq<char>),
}

impl<'a> View for Route<'a> {
    type V = RouteView;

    open spec fn view(&self) -> RouteView {
        match self {
            Route::Index => RouteView::Index,
            Route::About => RouteView::About,
            Route::Plaintext => RouteView::Plaintext,
            Route::Json => RouteView::Json,
            Route::Health => RouteView::Health,
            Route::User(id) => RouteView::User(id@),
        }
    }
}

/// The one method that is matched.
pub const METHOD: &'static str = "GET";

/// The path of the front page.
pub const INDEX_PATH: &'static str = "/";

/// The path of the about page.
pub const ABOUT_PATH: &'static str = "/about";

/// The path of the plain greeting.
pub const PLAINTEXT_PATH: &'static str = "/plaintext";

/// The path of the greeting document.
pub const JSON_PATH: &'static str = "/json";

/// The path of the health check.
pub const HEALTH_PATH: &'static str = "/api/health";

/// What stands in front of the id in the path of a user.
pub const USER_PREFIX: &'static str = "/api/users/";

/// One segment of a path: at least one character, and no slash.
pub open spec fn is_segment(s: Seq<char>) -> bool {
    s.len() > 0 && !s.contains('/')
}

/// The route that a request with the given method and path matches, if any.
pub open spec fn route_of(method: Seq<char>, path: Seq<char>) -> Option<RouteView> {
    if method != METHOD@ {
        None
    } else if path == INDEX_PATH@ {
        Some(RouteView::Index)
    } else if path == ABOUT_PATH@ {
        Some(RouteView::About)
    } else if path == PLAINTEXT_PATH@ {
        Some(RouteView::Plaintext)
    } else if path == JSON_PATH@ {
        Some(RouteView::Json)
    } else if path == HEALTH_PATH@ {
        Some(RouteView::Health)
    } else if USER_PREFIX@.is_prefix_of(path) && is_segment(path.skip(USER_PREFIX@.len() as int)) {
        Some(RouteView::User(path.skip(USER_PREFIX@.len() as int)))
    } else {
        None
    }
}

/// What a request for the given route is answered with.
pub open spec fn response_to(route: RouteView, assets: AssetsView) -> ResponseView {
    match route {
        RouteView::Index => index_response(assets),
        RouteView::About => about_response(assets),
        RouteView::Plaintext => plaintext_response(),
        RouteView::Json => json_response(),
        RouteView::Health => health_response(),
        RouteView::User(id) => user_response(id),
    }
}

/// The media type that the answer to each route is declared as.
pub open spec fn content_type_of(route: RouteView) -> ContentType {
    match route {
        RouteView::Index => ContentType::Html,
        RouteView::About => ContentType::Html,
        RouteView::Plaintext => ContentType::Plain,
        RouteView::Json => ContentType::Json,
        RouteView::Health => ContentType::Json,
        RouteView::User(_) => ContentType::Json,
    }
}

/// Matches a request against the table.
pub fn resolve<'a>(method: &str, path: &'a str) -> (r: Option<Route<'a>>)
    ensures
        match r {
            Some(route) => route_of(method@, path@) == Some(route@),
            None => route_of(method@, path@) is None,
        },
{
    if !same_text(method, METHOD) {
        return None;
    }
    if same_text(path, INDEX_PATH) {
        return Some(Route::Index);
    }
    if same_text(path, ABOUT_PATH) {
        return Some(Route::About);
    }
    if same_text(path, PLAINTEXT_PATH) {
        return Some(Route::Plaintext);
    }
    if same_text(path, JSON_PATH) {
        return Some(Route::Json);
    }
    if same_text(path, HEALTH_PATH) {
        return Some(Route::Health);
    }
    proof {
        reveal_strlit("/api/users/");
    }
    match strip_ascii_prefix(path, USER_PREFIX) {
        Some(id) => {
            assert(id@ == path@.skip(USER_PREFIX@.len() as int));
            if id.is_empty() || contains_ascii(id, 0x2F) {
                None
            } else {
                Some(Route::User(id))
            }
        },
        None => None,
    }
}

/// Whether the answer to a route can be built: only the document of a user
/// can be too long for a buffer.
pub open spec fn can_answer(route: RouteView) -> bool {
    route matches RouteView::User(id) ==> user_response(id).body.len() <= max_buffer_len()
}

/// Answers a request for a matched route. Fails exactly when the route is
/// that of a user whose document would be longer than a buffer may be.
pub fn respond(route: &Route, assets: &AssetStore) -> (r: Result<Response, EncodeError>)
    ensures
        r is Ok <==> can_answer(route@),
        r matches Ok(response) ==> response@ == response_to(route@, assets@),
{
    match route {
        Route::Index => Ok(index(assets)),
        Route::About => Ok(about(assets)),
        Route::Plaintext => Ok(plaintext()),
        Route::Json => Ok(json()),
        Route::Health => Ok(health()),
        Route::User(id) => get_user(id),
    }
}

/// Matches a request and answers it. `None` means that no route matched and
/// nothing was built; `Some(Err(..))` that the route of a user matched whose
/// document would be longer than a buffer may be.
pub fn dispatch(method: &str, path: &str, assets: &AssetStore) -> (r: Option<
    Result<Response, EncodeError>,
>)
    ensures
        match route_of(method@, path@) {
            None => r is None,
            Some(route) => match r {
                Some(Ok(response)) => can_answer(route) && response@ == response_to(
                    route,
                    assets@,
                ),
                Some(Err(_)) => !can_answer(route),
                None => false,
            },
        },
{
    match resolve(method, path) {
        Some(route) => Some(respond(&route, assets)),
        None => None,
    }
}

/// Every answer has status 200, is declared as the media type of its route,
/// and carries the server header.
pub proof fn lemma_headers(route: RouteView, assets: AssetsView)
    ensures
        response_to(route, assets).status == 200,
        response_to(route, assets).content_type == content_type_of(route),
        response_to(route, assets).server == SERVER_ID@,
{
}

/// The two documents are answered with the bytes that the store holds for
/// them, and with nothing else.
pub proof fn lemma_documents_as_stored(assets: AssetsView)
    ensures
        response_to(RouteView::Index, assets).body == assets.index,
        response_to(RouteView::About, assets).body == assets.about,
{
}

/// What is answered depends on the route and, for the two documents, on the
/// store; on nothing else. Two answers to the same request are the same,
/// byte for byte.
pub proof fn lemma_same_request_same_answer(
    route: RouteView,
    assets: AssetsView,
    first: ResponseView,
    second: ResponseView,
)
    requires
        first == response_to(route, assets),
        second == response_to(route, assets),
    ensures
        first == second,
        first.body == second.body,
{
}

/// A request with any other method than `GET` matches nothing, whatever
/// its path.
pub proof fn lemma_other_methods_match_nothing(method: Seq<char>, path: Seq<char>)
    requires
        method != METHOD@,
    ensures
        route_of(method, path) is None,
{
}

/// Every path made of the user prefix and one segment is the route of the
/// user with that segment as id.
pub proof fn lemma_user_route(id: Seq<char>)
    requires
        is_segment(id),
    ensures
        route_of(METHOD@, USER_PREFIX@ + id) == Some(RouteView::User(id)),
{
    reveal_strlit("/api/users/");
    reveal_strlit("/");
    reveal_strlit("/about");
    reveal_strlit("/plaintext");
    reveal_strlit("/json");
    reveal_strlit("/api/health");
    let path = USER_PREFIX@ + id;
    assert(path[5] == 'u');
    assert(USER_PREFIX@ =~= path.subrange(0, USER_PREFIX@.len() as int));
    assert(path.skip(USER_PREFIX@.len() as int) =~= id);
}

/// The plain greeting, the greeting document, the health document and the
/// document of any user are four different bodies: none of these routes can
/// be taken for another by what it sends.
pub proof fn lemma_bodies_differ(id: Seq<char>)
    ensures
        plaintext_response().body != json_response().body,
        plaintext_response().body != health_response().body,
        plaintext_response().body != user_response(id).body,
        json_response().body != health_response().body,
        json_response().body != user_response(id).body,
        health_response().body != user_response(id).body,
{
    reveal_strlit("Hello, World!");
    reveal_strlit("{\"message\":");
    reveal_strlit("{\"status\":");
    reveal_strlit("{\"id\":");
    is_ascii_chars_encode_utf8("Hello, World!"@);
    is_ascii_chars_encode_utf8("{\"message\":"@);
    is_ascii_chars_encode_utf8("{\"status\":"@);
    is_ascii_chars_encode_utf8("{\"id\":"@);
    let plain = plaintext_response().body;
    let greeting = json_response().body;
    let health = health_response().body;
    let user = user_response(id).body;
    assert(plain[0] == 0x48);
    assert(greeting[0] == 0x7B && greeting[2] == 0x6D);
    assert(health[0] == 0x7B && health[2] == 0x73);
    assert(user[0] == 0x7B && user[2] == 0x69);
}

} // verus!
