use bench_routes::assets::AssetStore;
use bench_routes::response::ContentType;
use bench_routes::router::{dispatch, resolve, respond, Route};

const INDEX_HTML: &[u8] = b"<html>index</html>";
const ABOUT_HTML: &[u8] = b"<html>about</html>";

fn assets() -> AssetStore {
    AssetStore::new(INDEX_HTML, ABOUT_HTML)
}

fn body_of(method: &str, path: &str) -> Option<Vec<u8>> {
    dispatch(method, path, &assets()).map(|r| r.unwrap().body_bytes().to_vec())
}

#[test]
fn static_routes_are_matched_letter_for_letter() {
    assert!(matches!(resolve("GET", "/"), Some(Route::Index)));
    assert!(matches!(resolve("GET", "/about"), Some(Route::About)));
    assert!(matches!(resolve("GET", "/plaintext"), Some(Route::Plaintext)));
    assert!(matches!(resolve("GET", "/json"), Some(Route::Json)));
    assert!(matches!(resolve("GET", "/api/health"), Some(Route::Health)));
}

#[test]
fn user_route_takes_one_segment() {
    assert!(matches!(resolve("GET", "/api/users/42"), Some(Route::User("42"))));
    assert!(matches!(resolve("GET", "/api/users/alice"), Some(Route::User("alice"))));
    assert!(matches!(resolve("GET", "/api/users/john smith"), Some(Route::User("john smith"))));
    assert!(matches!(resolve("GET", "/api/users/zoë"), Some(Route::User("zoë"))));
    assert!(matches!(resolve("GET", "/api/users/日本語"), Some(Route::User("日本語"))));
    assert!(matches!(resolve("GET", "/api/users/a%2Fb"), Some(Route::User("a%2Fb"))));
    assert!(matches!(resolve("GET", "/api/users/\""), Some(Route::User("\""))));
}

#[test]
fn user_route_needs_a_segment() {
    assert!(resolve("GET", "/api/users/").is_none());
    assert!(resolve("GET", "/api/users").is_none());
    assert!(resolve("GET", "/api/users/a/b").is_none());
    assert!(resolve("GET", "/api/users/42/").is_none());
    assert!(resolve("GET", "/api/users//").is_none());
    assert!(resolve("GET", "/api/users//42").is_none());
}

#[test]
fn nope_is_not_a_route() {
    assert!(resolve("GET", "/nope").is_none());
    assert!(dispatch("GET", "/nope", &assets()).is_none());
}

#[test]
fn near_misses_are_not_routes() {
    for path in [
        "", "//", "/about/", "/About", "/json/", "/jso", "/plaintext ", " /", "/api", "/api/",
        "/api/health/", "/api/healthy", "/api/user/42", "api/users/42", "/API/users/42",
        "/index.html", "/é",
    ] {
        assert!(resolve("GET", path).is_none(), "{:?}", path);
        assert!(dispatch("GET", path, &assets()).is_none(), "{:?}", path);
    }
}

#[test]
fn only_get_is_matched() {
    for method in ["POST", "PUT", "DELETE", "HEAD", "OPTIONS", "PATCH", "get", "Get", "", "GET "] {
        for path in ["/", "/about", "/plaintext", "/json", "/api/health", "/api/users/42"] {
            assert!(resolve(method, path).is_none(), "{:?} {:?}", method, path);
            assert!(dispatch(method, path, &assets()).is_none(), "{:?} {:?}", method, path);
        }
    }
}

#[test]
fn dispatch_answers_each_route() {
    assert_eq!(body_of("GET", "/").unwrap(), INDEX_HTML);
    assert_eq!(body_of("GET", "/about").unwrap(), ABOUT_HTML);
    assert_eq!(body_of("GET", "/plaintext").unwrap(), b"Hello, World!");
    assert_eq!(body_of("GET", "/json").unwrap(), br#"{"message":"Hello, World!"}"#);
    assert_eq!(body_of("GET", "/api/health").unwrap(), br#"{"status":"ok"}"#);
    assert_eq!(body_of("GET", "/api/users/42").unwrap(), br#"{"id":"42","name":"User 42"}"#);
    assert_eq!(
        body_of("GET", "/api/users/alice").unwrap(),
        br#"{"id":"alice","name":"User alice"}"#
    );
}

#[test]
fn dispatch_declares_each_route() {
    let store = assets();
    let table = [
        ("/", ContentType::Html),
        ("/about", ContentType::Html),
        ("/plaintext", ContentType::Plain),
        ("/json", ContentType::Json),
        ("/api/health", ContentType::Json),
        ("/api/users/42", ContentType::Json),
    ];
    for (path, content_type) in table {
        let response = dispatch("GET", path, &store).unwrap().unwrap();
        assert_eq!(response.status, 200);
        assert_eq!(response.content_type, content_type);
        assert_eq!(response.server, "A");
    }
}

#[test]
fn respond_answers_a_matched_route() {
    let store = assets();
    assert_eq!(respond(&Route::Index, &store).unwrap().body_bytes(), INDEX_HTML);
    assert_eq!(respond(&Route::About, &store).unwrap().body_bytes(), ABOUT_HTML);
    assert_eq!(respond(&Route::Plaintext, &store).unwrap().body_bytes(), b"Hello, World!");
    assert_eq!(
        respond(&Route::Json, &store).unwrap().body_bytes(),
        br#"{"message":"Hello, World!"}"#
    );
    assert_eq!(respond(&Route::Health, &store).unwrap().body_bytes(), br#"{"status":"ok"}"#);
    assert_eq!(
        respond(&Route::User("a b"), &store).unwrap().body_bytes(),
        br#"{"id":"a b","name":"User a b"}"#
    );
    assert_eq!(
        respond(&Route::User(""), &store).unwrap().body_bytes(),
        br#"{"id":"","name":"User "}"#
    );
}

#[test]
fn mixed_dispatch_keeps_to_its_own_route() {
    let store = assets();
    let paths = ["/", "/plaintext", "/api/users/42", "/json", "/about", "/api/health"];
    let expected: Vec<Vec<u8>> = paths.iter().map(|p| body_of("GET", p).unwrap()).collect();
    for i in 0..1000usize {
        let k = (i * 7 + 3) % paths.len();
        let response = dispatch("GET", paths[k], &store).unwrap().unwrap();
        assert_eq!(response.body_bytes(), &expected[k][..]);
    }
}
