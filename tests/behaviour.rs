use qr_api::auth::{same_text, ApiKey, ApiKeyError};
use qr_api::config::{parse_port, Config, ConfigError};
use qr_api::cors::CORS;
use qr_api::http::{names_equal, ContentType, Method, Request, Response, Status};
use qr_api::render::{render_qr, RenderError};
use qr_api::service::{all_options, hello, qr_response, route, Route, Service};

fn service() -> Service {
    Service::new(Config::from_values(Some("s3cret"), None).unwrap())
}

fn generate(url: &str, key: Option<&str>) -> Request {
    let r = Request::new(Method::Get, "/generate").with_url(url);
    match key {
        Some(k) => r.with_header("X-API-Key", k),
        None => r,
    }
}

fn assert_cors(r: &Response) {
    assert_eq!(r.header("Access-Control-Allow-Origin").as_deref(), Some("*"));
    assert_eq!(r.header("access-control-allow-methods").as_deref(), Some("GET, POST, OPTIONS"));
    assert_eq!(
        r.header("ACCESS-CONTROL-ALLOW-HEADERS").as_deref(),
        Some("Content-Type, X-API-Key")
    );
}

#[test]
fn missing_key_gives_400_with_cors_and_empty_body() {
    let r = service().handle(&generate("https://example.com", None));
    assert_eq!(r.status(), Status::BadRequest);
    assert_eq!(r.status().code(), 400);
    assert_eq!(r.body(), "");
    assert_cors(&r);
}

#[test]
fn wrong_key_gives_401_with_cors() {
    for key in ["", "s3cre", "s3cret ", "S3CRET", "wrong"] {
        let r = service().handle(&generate("https://example.com", Some(key)));
        assert_eq!(r.status(), Status::Unauthorized);
        assert_eq!(r.status().code(), 401);
        assert_eq!(r.body(), "");
        assert_cors(&r);
    }
}

#[test]
fn correct_key_draws_example_url() {
    let r = service().handle(&generate("https://example.com", Some("s3cret")));
    assert_eq!(r.status(), Status::Success);
    assert_eq!(r.content_type, Some(ContentType::Svg));
    assert!(r.body().starts_with("<?xml version=\"1.0\" standalone=\"yes\"?><svg"));
    assert!(r.body().contains("fill=\"#000000\""));
    assert!(r.body().contains("fill=\"#ffffff\""));
    assert!(r.body().ends_with("</svg>"));
    assert_cors(&r);
}

#[test]
fn key_header_name_ignores_case() {
    let req = Request::new(Method::Get, "/generate")
        .with_url("abc")
        .with_header("x-api-key", "s3cret");
    assert_eq!(service().handle(&req).status(), Status::Success);
}

#[test]
fn first_key_header_decides() {
    let req = generate("abc", Some("wrong")).with_header("X-API-Key", "s3cret");
    assert_eq!(service().handle(&req).status(), Status::Unauthorized);
    let req = generate("abc", Some("s3cret")).with_header("X-API-Key", "wrong");
    assert_eq!(service().handle(&req).status(), Status::Success);
}

#[test]
fn same_request_twice_gives_same_markup() {
    let s = service();
    let a = s.handle(&generate("https://example.com/a?b=c", Some("s3cret")));
    let b = s.handle(&generate("https://example.com/a?b=c", Some("s3cret")).with_header("Accept", "*/*"));
    assert_eq!(a.status(), Status::Success);
    assert_eq!(a.body(), b.body());
    let c = s.handle(&generate("https://example.com/other", Some("s3cret")));
    assert_ne!(a.body(), c.body());
}

#[test]
fn empty_text_is_drawn() {
    let r = service().handle(&generate("", Some("s3cret")));
    assert_eq!(r.status(), Status::Success);
    assert!(r.body().contains("<svg"));
}

#[test]
fn too_long_text_gives_500_with_cors() {
    let long = "x".repeat(8000);
    let r = service().handle(&generate(&long, Some("s3cret")));
    assert_eq!(r.status(), Status::InternalServerError);
    assert_eq!(r.status().code(), 500);
    assert_eq!(r.body(), "");
    assert_cors(&r);
    assert_eq!(render_qr(&long), Err(RenderError::DataTooLong));
}

#[test]
fn missing_url_gives_422() {
    let req = Request::new(Method::Get, "/generate").with_header("X-API-Key", "s3cret");
    let r = service().handle(&req);
    assert_eq!(r.status(), Status::UnprocessableEntity);
    assert_eq!(r.status().code(), 422);
    let req = Request::new(Method::Get, "/generate");
    assert_eq!(service().handle(&req).status(), Status::BadRequest);
}

#[test]
fn preflight_on_any_path_is_empty_200_with_cors() {
    for path in ["/", "/generate", "/any/thing"] {
        let r = service().handle(&Request::new(Method::Options, path));
        assert_eq!(r.status(), Status::Success);
        assert_eq!(r.body(), "");
        assert_eq!(r.content_type, None);
        assert_cors(&r);
    }
}

#[test]
fn unknown_route_gives_404_with_cors() {
    for (m, p) in [(Method::Get, "/nothing"), (Method::Post, "/generate"), (Method::Get, "/generate/")] {
        let r = service().handle(&Request::new(m, p));
        assert_eq!(r.status(), Status::NotFound);
        assert_eq!(r.status().code(), 404);
        assert_cors(&r);
    }
}

#[test]
fn hello_ignores_headers_and_key() {
    let req = Request::new(Method::Get, "/").with_header("X-API-Key", "wrong");
    let r = service().handle(&req);
    assert_eq!(r.status(), Status::Success);
    assert_eq!(r.body(), "Hello, world!");
    assert_eq!(r.content_type, Some(ContentType::Plain));
    assert_eq!(hello(), "Hello, world!");
}

#[test]
fn cors_replaces_existing_headers() {
    let mut r = Response::empty(Status::Success);
    r.set_header("access-control-allow-origin", "https://a.example");
    r.set_header("Other", "kept");
    CORS.on_response(&mut r);
    assert_eq!(r.headers.len(), 4);
    assert_cors(&r);
    assert_eq!(r.header("other").as_deref(), Some("kept"));
    assert_eq!(CORS.headers().len(), 3);
    assert_eq!(CORS.info(), "Add CORS headers to responses");
}

#[test]
fn gate_decisions() {
    assert_eq!(ApiKey::from_request(None, "k").unwrap_err(), (Status::BadRequest, ApiKeyError::Missing));
    assert_eq!(
        ApiKey::from_request(Some("K"), "k").unwrap_err(),
        (Status::Unauthorized, ApiKeyError::Invalid)
    );
    assert_eq!(ApiKey::from_request(Some("k"), "k").unwrap().key, "k");
    assert!(same_text("héllo", "héllo"));
    assert!(!same_text("héllo", "hello"));
    assert!(names_equal("X-Api-KEY", "x-api-key"));
    assert!(!names_equal("X-Api-Key", "X-Api-Kez"));
}

#[test]
fn port_parsing() {
    assert_eq!(parse_port("8080"), Some(8080));
    assert_eq!(parse_port("+80"), Some(80));
    assert_eq!(parse_port("0"), Some(0));
    assert_eq!(parse_port("007"), Some(7));
    assert_eq!(parse_port("65535"), Some(65535));
    assert_eq!(parse_port("65536"), None);
    assert_eq!(parse_port("999999"), None);
    assert_eq!(parse_port(""), None);
    assert_eq!(parse_port("+"), None);
    assert_eq!(parse_port("-1"), None);
    assert_eq!(parse_port("80a"), None);
    assert_eq!(parse_port(" 80"), None);
}

#[test]
fn startup_needs_the_secret() {
    assert_eq!(Config::from_values(None, Some("8080")).unwrap_err(), ConfigError::MissingApiKey);
    assert_eq!(Config::from_values(None, None).unwrap_err(), ConfigError::MissingApiKey);
    assert_eq!(Config::from_values(Some("k"), Some("http")).unwrap_err(), ConfigError::InvalidPort);
    let c = Config::from_values(Some("k"), None).unwrap();
    assert_eq!(c.port, 8080);
    assert_eq!(c.address, [0, 0, 0, 0]);
    assert_eq!(c.api_key, "k");
    assert_eq!(Config::from_values(Some("k"), Some("9000")).unwrap().port, 9000);
}

#[test]
fn rendering_and_responses() {
    let s = render_qr("hello").unwrap();
    assert_ne!(s, "hello");
    assert!(s.starts_with("<?xml"));
    let r = qr_response(Ok(s.clone()));
    assert_eq!(r.status(), Status::Success);
    assert_eq!(r.body(), s);
    let r = qr_response(Err(RenderError::DataTooLong));
    assert_eq!(r.status(), Status::InternalServerError);
    assert_eq!(all_options().status(), Status::Success);
    assert_eq!(ContentType::Svg.as_str(), "image/svg+xml");
    assert_eq!(route(Method::Options, "/x"), Route::Preflight);
    assert_eq!(route(Method::Get, "/generate"), Route::Generate);
    assert_eq!(route(Method::Get, "/"), Route::Hello);
    assert_eq!(route(Method::Head, "/"), Route::Unmatched);
}
