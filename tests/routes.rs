use qr_api::config::Config;
use qr_api::http::{Method, Request, Status};
use qr_api::service::Service;

fn create_test_client() -> Service {
    let config = Config::from_values(Some("test_key"), Some("8080")).unwrap();
    Service::new(config)
}

#[test]
fn test_hello_endpoint() {
    let client = create_test_client();
    let response = client.handle(&Request::new(Method::Get, "/"));
    assert_eq!(response.status(), Status::Success);
    assert_eq!(response.body(), "Hello, world!");
}

#[test]
fn test_generate_qr_with_valid_api_key() {
    let client = create_test_client();
    let request = Request::new(Method::Get, "/generate")
        .with_url("https://ghurmy.xyz")
        .with_header("X-API-Key", "test_key");
    let response = client.handle(&request);

    assert_eq!(response.status(), Status::Success);
    assert!(response.body().contains("<svg"));
}

#[test]
fn test_generate_qr_without_api_key() {
    let client = create_test_client();
    let request = Request::new(Method::Get, "/generate").with_url("https://example.com");
    let response = client.handle(&request);

    assert_eq!(response.status(), Status::BadRequest);
}

#[test]
fn test_generate_qr_with_invalid_api_key() {
    let client = create_test_client();
    let request = Request::new(Method::Get, "/generate")
        .with_url("https://ghurmy.xyz")
        .with_header("X-API-Key", "wrong_key");
    let response = client.handle(&request);

    assert_eq!(response.status(), Status::Unauthorized);
}

#[test]
fn test_cors_headers() {
    let client = create_test_client();
    let response = client.handle(&Request::new(Method::Get, "/"));

    assert_eq!(response.header("Access-Control-Allow-Origin").as_deref(), Some("*"));
    assert_eq!(
        response.header("Access-Control-Allow-Methods").as_deref(),
        Some("GET, POST, OPTIONS")
    );
    assert_eq!(
        response.header("Access-Control-Allow-Headers").as_deref(),
        Some("Content-Type, X-API-Key")
    );
}

#[test]
fn test_options_request() {
    let client = create_test_client();
    let response = client.handle(&Request::new(Method::Options, "/"));

    assert_eq!(response.status(), Status::Success);
}

#[test]
fn test_generate_qr_with_invalid_url() {
    let client = create_test_client();
    let request = Request::new(Method::Get, "/generate")
        .with_url("not_a_url")
        .with_header("X-API-Key", "test_key");
    let response = client.handle(&request);

    // Any text is drawn; it is not checked to be a URL.
    assert_eq!(response.status(), Status::Success);
    assert!(response.body().contains("<svg"));
}
