//! The service: routing, the key check in front of generation, the handlers, and
//! the cross-origin policy around them all.

use vstd::prelude::*;
use crate::auth::{api_key_header, key_verdict, ApiKey};
use crate::config::Config;
use crate::cors::{has_cors, lemma_with_cors_has_cors, with_cors, CORS};
use crate::http::{
    empty_view, header_views, ContentType, Method, Request, RequestView, Response, ResponseView,
    Status,
};
use crate::render::{begins_with, markup_of, qr_fits, render_qr, svg_opening, RenderError};

verus! {

/// The routes that the service serves.
#[derive(Clone, Copy, Debug, PartialEq, Eq, Structural)]
pub enum Route {
    /// `GET /generate`: QR markup for the `url` parameter, behind the key check.
    Generate,
    /// `GET /`: a fixed greeting.
    Hello,
    /// `OPTIONS` on any path: an empty answer to a preflight check.
    Preflight,
    /// Anything else.
    Unmatched,
}

pub open spec fn route_of(method: Method, path: Seq<char>) -> Route {
    if method == Method::Options {
        Route::Preflight
    } else if method == Method::Get && path == "/generate"@ {
        Route::Generate
    } else if method == Method::Get && path == "/"@ {
        Route::Hello
    } else {
        Route::Unmatched
    }
}

/// The route that serves `method` on `path`.
pub fn route(method: Method, path: &str) -> (r: Route)
    ensures
        r == route_of(method, path@),
{
    match method {
        Method::Options => Route::Preflight,
        Method::Get => {
            if crate::auth::same_text(path, "/generate") {
                Route::Generate
            } else if crate::auth::same_text(path, "/") {
                Route::Hello
            } else {
                Route::Unmatched
            }
        },
        _ => Route::Unmatched,
    }
}

pub open spec fn greeting() -> Seq<char> {
    "Hello, world!"@
}

/// The body of the greeting route.
pub fn hello() -> (r: &'static str)
    ensures
        r@ == greeting(),
{
    "Hello, world!"
}

/// The answer to a preflight check: 200 with an empty body.
pub fn all_options() -> (r: Response)
    ensures
        r@ == empty_view(Status::Success),
{
    let r = Response::empty(Status::Success);
    assert(r@.headers =~= seq![]);
    assert(r@.body =~= seq![]);
    r
}

/// The response for what rendering gave: the markup with status 200, or an
/// empty 500 when the text could not be drawn.
pub open spec fn rendered_response(rendered: Result<Seq<char>, RenderError>) -> ResponseView {
    match rendered {
        Ok(s) => ResponseView {
            status: Status::Success,
            content_type: Some(ContentType::Svg),
            headers: seq![],
            body: s,
        },
        Err(_) => empty_view(Status::InternalServerError),
    }
}

/// The response to an authorized request to draw `text`.
pub open spec fn markup_response(text: Seq<char>) -> ResponseView {
    if qr_fits(text) {
        rendered_response(Ok(markup_of(text)))
    } else {
        rendered_response(Err(RenderError::DataTooLong))
    }
}

/// Turns what rendering gave into a response.
pub fn qr_response(rendered: Result<String, RenderError>) -> (r: Response)
    ensures
        r@ == rendered_response(
            match rendered {
                Ok(s) => Ok(s@),
                Err(e) => Err(e),
            },
        ),
{
    match rendered {
        Ok(s) => {
            let r = Response::with_body(ContentType::Svg, s);
            assert(r@.headers =~= seq![]);
            r
        },
        Err(_) => {
            let r = Response::empty(Status::InternalServerError);
            assert(r@.headers =~= seq![]);
            assert(r@.body =~= seq![]);
            r
        },
    }
}

/// The generation handler: draws `url`, whatever text it is, as a QR
/// symbol. Only a caller that passed the key check holds an `ApiKey`.
pub fn generate_qr(_api_key: &ApiKey, url: &str) -> (r: Response)
    ensures
        r@ == markup_response(url@),
        r.status == Status::Success ==> begins_with(r.body@, svg_opening()),
{
    qr_response(render_qr(url))
}

/// The response of the generation route, before the cross-origin policy.
pub open spec fn generate_response(secret: Seq<char>, req: RequestView) -> ResponseView {
    match key_verdict(crate::http::lookup(req.headers, api_key_header()), secret) {
        Err((status, _)) => empty_view(status),
        Ok(_) => match req.url {
            None => empty_view(Status::UnprocessableEntity),
            Some(u) => markup_response(u),
        },
    }
}

/// The response of the route that `req` matches, before the cross-origin
/// policy.
pub open spec fn routed_response(secret: Seq<char>, req: RequestView) -> ResponseView {
    match route_of(req.method, req.path) {
        Route::Generate => generate_response(secret, req),
        Route::Hello => ResponseView {
            status: Status::Success,
            content_type: Some(ContentType::Plain),
            headers: seq![],
            body: greeting(),
        },
        Route::Preflight => empty_view(Status::Success),
        Route::Unmatched => empty_view(Status::NotFound),
    }
}

/// The service's response to `req` when its secret is `secret`.
pub open spec fn service_response(secret: Seq<char>, req: RequestView) -> ResponseView {
    let r = routed_response(secret, req);
    ResponseView { headers: with_cors(r.headers), ..r }
}

/// The running service: its configuration and its response hook.
pub struct Service {
    pub config: Config,
    pub cors: CORS,
}

impl Service {
    pub fn new(config: Config) -> (r: Service)
        ensures
            r.config.api_key@ == config.api_key@,
            r.config.port == config.port,
    {
        Service { config, cors: CORS }
    }

    /// The secret that guards generation.
    pub open spec fn secret(&self) -> Seq<char> {
        self.config.api_key@
    }

    /// Runs the route that `req` matches, with the key check in front of
    /// generation; no cross-origin headers yet.
    pub fn dispatch(&self, req: &Request) -> (r: Response)
        ensures
            r@ == routed_response(self.secret(), req@),
            route_of(req.method, req.path@) == Route::Generate && r.status == Status::Success
                ==> begins_with(r.body@, svg_opening()),
    {
        match route(req.method, req.path.as_str()) {
            Route::Generate => {
                let presented = req.header("X-API-Key");
                let outcome = match &presented {
                    Some(k) => ApiKey::from_request(Some(k.as_str()), self.config.api_key.as_str()),
                    None => ApiKey::from_request(None, self.config.api_key.as_str()),
                };
                match outcome {
                    Err((status, _)) => {
                        let r = Response::empty(status);
                        assert(r@.headers =~= seq![]);
                        assert(r@.body =~= seq![]);
                        r
                    },
                    Ok(key) => match &req.url {
                        None => {
                            let r = Response::empty(Status::UnprocessableEntity);
                            assert(r@.headers =~= seq![]);
                            assert(r@.body =~= seq![]);
                            r
                        },
                        Some(u) => generate_qr(&key, u.as_str()),
                    },
                }
            },
            Route::Hello => {
                let r = Response::with_body(ContentType::Plain, hello().to_string());
                assert(r@.headers =~= seq![]);
                r
            },
            Route::Preflight => all_options(),
            Route::Unmatched => {
                let r = Response::empty(Status::NotFound);
                assert(r@.headers =~= seq![]);
                assert(r@.body =~= seq![]);
                r
            },
        }
    }

    /// Answers `req`: runs its route, then sets the cross-origin headers,
    /// whatever the route and its outcome.
    pub fn handle(&self, req: &Request) -> (r: Response)
        ensures
            r@ == service_response(self.secret(), req@),
            route_of(req.method, req.path@) == Route::Generate && r.status == Status::Success
                ==> begins_with(r.body@, svg_opening()),
    {
        let mut r = self.dispatch(req);
        self.cors.on_response(&mut r);
        r
    }
}

/// Generation is asked for when a `GET` names the path `/generate`.
pub open spec fn asks_generation(req: RequestView) -> bool {
    req.method == Method::Get && req.path == "/generate"@
}

/// A request to generate that presents no credential is refused with 400.
pub proof fn law_missing_key_is_bad_request(secret: Seq<char>, req: RequestView)
    requires
        asks_generation(req),
        crate::http::lookup(req.headers, api_key_header()) is None,
    ensures
        service_response(secret, req).status == Status::BadRequest,
        service_response(secret, req).body.len() == 0,
{
}

/// A request to generate that presents a credential other than the secret
/// is refused with 401.
pub proof fn law_wrong_key_is_unauthorized(secret: Seq<char>, req: RequestView)
    requires
        asks_generation(req),
        crate::http::lookup(req.headers, api_key_header()) matches Some(k) && k != secret,
    ensures
        service_response(secret, req).status == Status::Unauthorized,
        service_response(secret, req).body.len() == 0,
{
}

/// A request to generate that presents the secret gets status 200 and SVG
/// markup for its `url` parameter, whatever text it holds, as long as the
/// text fits in a QR symbol; otherwise it gets 500.
pub proof fn law_authorized_text_is_drawn(secret: Seq<char>, req: RequestView, text: Seq<char>)
    requires
        asks_generation(req),
        crate::http::lookup(req.headers, api_key_header()) == Some(secret),
        req.url == Some(text),
    ensures
        qr_fits(text) ==> {
            let r = service_response(secret, req);
            &&& r.status == Status::Success
            &&& r.content_type == Some(ContentType::Svg)
            &&& r.body == markup_of(text)
        },
        !qr_fits(text) ==> service_response(secret, req).status == Status::InternalServerError,
{
}

/// Every response, whatever the route and the outcome, carries the three
/// cross-origin headers with their values.
pub proof fn law_every_response_has_cors(secret: Seq<char>, req: RequestView)
    ensures
        has_cors(service_response(secret, req).headers),
{
    lemma_with_cors_has_cors(routed_response(secret, req).headers);
}

/// Two authorized requests to generate with the same `url` parameter get the
/// same response, byte for byte, whatever other headers they carry.
pub proof fn law_generation_is_deterministic(secret: Seq<char>, a: RequestView, b: RequestView)
    requires
        asks_generation(a),
        asks_generation(b),
        crate::http::lookup(a.headers, api_key_header()) == Some(secret),
        crate::http::lookup(b.headers, api_key_header()) == Some(secret),
        a.url == b.url,
    ensures
        service_response(secret, a) == service_response(secret, b),
{
}

/// `GET /` gets status 200 and the greeting, whatever headers it carries.
pub proof fn law_hello(secret: Seq<char>, req: RequestView)
    requires
        req.method == Method::Get,
        req.path == "/"@,
    ensures
        service_response(secret, req).status == Status::Success,
        service_response(secret, req).body == greeting(),
{
    reveal_strlit("/");
    reveal_strlit("/generate");
    assert(req.path.len() == 1);
    assert("/generate"@.len() == 9);
}

/// An `OPTIONS` request on any path gets status 200 and an empty body.
pub proof fn law_preflight(secret: Seq<char>, req: RequestView)
    requires
        req.method == Method::Options,
    ensures
        service_response(secret, req).status == Status::Success,
        service_response(secret, req).body.len() == 0,
{
}

} // verus!
