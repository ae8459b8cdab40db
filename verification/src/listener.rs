//! The capture listener: which requests it knows, and what it answers.
//!
//! The listener knows one request, `GET /capture?token=<value>`, which stores
//! the value. A `HEAD` request is read as the `GET` request it stands for, so
//! it stores the value too; the server sends its answer without the body.
//! With cross-origin access switched on the listener also answers every
//! `OPTIONS` request, whatever the target, and stamps the cross-origin policy
//! on every response. Everything else is not found.
//!
//! The target of a request is read as the server reads it: the path by its
//! non-empty, percent-decoded segments, the query by its non-empty,
//! URL-decoded fields, and a field's name by its first key. The capture
//! request is the one whose path is the single segment `capture`; its token
//! is the value of the first field whose key is `token`. A capture request
//! without such a field is answered with 400.

use crate::cors::{
    body_bytes, fold_name, header_values, lemma_stamped_headers, status_code, ALLOW_ORIGIN, CORS,
};
use crate::store::{capture, Capture, Phase, StoreStep, TokenStore};
use crate::text::same_text;
use vstd::prelude::*;

verus! {

/// The one segment of the path of the capture request.
pub const CAPTURE_SEGMENT: &'static str = "capture";

/// The key of the query field that carries the token.
pub const TOKEN_PARAMETER: &'static str = "token";

/// The body that acknowledges a stored token.
pub const ACKNOWLEDGEMENT: &'static str = "ok";

/// The content type of the acknowledgement.
pub const PLAIN_TEXT: &'static str = "text/plain; charset=utf-8";

/// The request methods.
#[derive(Clone, Copy, Debug, PartialEq, Eq, Structural)]
pub enum Method {
    Get,
    Put,
    Post,
    Delete,
    Options,
    Head,
    Trace,
    Connect,
    Patch,
}

/// What a request asks for, with its text as characters.
pub enum RouteView {
    Capture { token: Seq<char> },
    Preflight,
    MissingToken,
    NotFound,
}

/// What a request asks for.
#[derive(Debug)]
pub enum Route {
    /// Store this token.
    Capture { token: String },
    /// Answer a cross-origin preflight.
    Preflight,
    /// The capture path, but no field with the token's key in the query.
    MissingToken,
    /// Nothing that the listener knows.
    NotFound,
}

impl View for Route {
    type V = RouteView;

    open spec fn view(&self) -> RouteView {
        match self {
            Route::Capture { token } => RouteView::Capture { token: token@ },
            Route::Preflight => RouteView::Preflight,
            Route::MissingToken => RouteView::MissingToken,
            Route::NotFound => RouteView::NotFound,
        }
    }
}

/// A request target, parsed: the segments of its path, and the fields of its
/// query, each with the key of its name and its value.
#[derive(Debug)]
pub struct Target {
    pub segments: Vec<String>,
    pub fields: Vec<(String, String)>,
}

/// A parsed request target, with its text as characters.
pub struct TargetView {
    pub segments: Seq<Seq<char>>,
    pub fields: Seq<(Seq<char>, Seq<char>)>,
}

/// A list of texts, as characters.
pub open spec fn texts(list: Seq<String>) -> Seq<Seq<char>> {
    list.map_values(|text: String| text@)
}

/// A list of pairs of texts, as characters.
pub open spec fn pairs(list: Seq<(String, String)>) -> Seq<(Seq<char>, Seq<char>)> {
    list.map_values(|pair: (String, String)| (pair.0@, pair.1@))
}

impl View for Target {
    type V = TargetView;

    open spec fn view(&self) -> TargetView {
        TargetView { segments: texts(self.segments@), fields: pairs(self.fields@) }
    }
}

/// The view of a target that may be missing.
pub open spec fn target_view(target: Option<Target>) -> Option<TargetView> {
    match target {
        Some(parts) => Some(parts@),
        None => None,
    }
}

/// A request target as the server reads it: the non-empty, percent-decoded
/// segments of its path, and the non-empty fields of its query, each as its
/// URL-decoded name and value; `None` for a text that is no request target
/// in origin form.
pub uninterp spec fn parsed_target(target: Seq<char>) -> Option<
    (Seq<Seq<char>>, Seq<(Seq<char>, Seq<char>)>),
>;

/// The first key of a form field's name: `token` for `token`, and for
/// `token.id` and `token[0]` too.
pub uninterp spec fn first_key(name: Seq<char>) -> Seq<char>;

/// Calls `rocket::http::uri::Origin::parse`, and on the URI it gives
/// `Path::segments` and `Query::segments`, whose items are handed out as
/// they come. A text that does not parse gives `None`; a target without a
/// query has no fields. The result depends on the text alone.
#[verifier::external_body]
fn parse_target(target: &str) -> (parsed: Option<(Vec<String>, Vec<(String, String)>)>)
    ensures
        match parsed {
            Some((segments, fields)) => parsed_target(target@) == Some(
                (texts(segments@), pairs(fields@)),
            ),
            None => parsed_target(target@) is None,
        },
{
    let origin = rocket::http::uri::Origin::parse(target).ok()?;
    let segments = origin.path().segments().map(String::from).collect();
    let fields = origin.query().into_iter().flat_map(|query| query.segments()).map(
        |(name, value)| (String::from(name), String::from(value)),
    ).collect();
    Some((segments, fields))
}

/// Calls `rocket::form::name::NameView::new` and `NameView::key_lossy` on
/// the view it gives: the first key of the name. The result depends on the
/// name alone.
#[verifier::external_body]
fn key_of(name: &str) -> (key: String)
    ensures
        key@ == first_key(name@),
{
    String::from(rocket::form::name::NameView::new(name).key_lossy().as_str())
}

/// The fields of a query, each with the first key of its name in place of
/// the name.
pub open spec fn keyed_fields(fields: Seq<(Seq<char>, Seq<char>)>) -> Seq<(Seq<char>, Seq<char>)> {
    fields.map_values(|field: (Seq<char>, Seq<char>)| (first_key(field.0), field.1))
}

/// A request target as the rules see it: the fields by their keys.
pub open spec fn keyed(parsed: Option<(Seq<Seq<char>>, Seq<(Seq<char>, Seq<char>)>)>) -> Option<
    TargetView,
> {
    match parsed {
        Some((segments, fields)) => Some(TargetView { segments, fields: keyed_fields(fields) }),
        None => None,
    }
}

/// The value of the first of `fields` whose key is `key`.
pub open spec fn first_value(fields: Seq<(Seq<char>, Seq<char>)>, key: Seq<char>) -> Option<
    Seq<char>,
>
    decreases fields.len(),
{
    if fields.len() == 0 {
        None
    } else if fields[0].0 == key {
        Some(fields[0].1)
    } else {
        first_value(fields.drop_first(), key)
    }
}

/// What a request asks for, by its method and its parsed target.
pub open spec fn selected(cors: bool, method: Method, target: Option<TargetView>) -> RouteView {
    if method == Method::Get || method == Method::Head {
        match target {
            Some(parts) if parts.segments == seq![CAPTURE_SEGMENT@] => match first_value(
                parts.fields,
                TOKEN_PARAMETER@,
            ) {
                Some(token) => RouteView::Capture { token },
                None => RouteView::MissingToken,
            },
            _ => RouteView::NotFound,
        }
    } else if method == Method::Options && cors {
        RouteView::Preflight
    } else {
        RouteView::NotFound
    }
}

/// Puts the first key of its name in place of the name of each field.
fn key_fields(fields: Vec<(String, String)>) -> (keyed: Vec<(String, String)>)
    ensures
        pairs(keyed@) == keyed_fields(pairs(fields@)),
{
    let mut keyed: Vec<(String, String)> = Vec::new();
    let mut i: usize = 0;
    while i < fields.len()
        invariant
            0 <= i <= fields.len(),
            keyed.len() == i,
            forall|k: int|
                0 <= k < i ==> keyed@[k].0@ == first_key(fields@[k].0@) && keyed@[k].1@
                    == fields@[k].1@,
        decreases fields.len() - i,
    {
        let field = &fields[i];
        keyed.push((key_of(field.0.as_str()), field.1.clone()));
        i += 1;
    }
    assert(pairs(keyed@) =~= keyed_fields(pairs(fields@)));
    keyed
}

/// The value of the first of `fields` whose key is `key`; `None` where no
/// field has that key.
pub fn first_value_in(fields: &Vec<(String, String)>, key: &str) -> (value: Option<String>)
    ensures
        match first_value(pairs(fields@), key@) {
            Some(found) => value matches Some(text) && text@ == found,
            None => value is None,
        },
{
    let mut i: usize = 0;
    assert(pairs(fields@).skip(0) == pairs(fields@));
    while i < fields.len()
        invariant
            0 <= i <= fields.len(),
            first_value(pairs(fields@), key@) == first_value(pairs(fields@).skip(i as int), key@),
        decreases fields.len() - i,
    {
        let field = &fields[i];
        let ghost rest = pairs(fields@).skip(i as int);
        assert(rest[0] == (field.0@, field.1@));
        if same_text(field.0.as_str(), key) {
            return Some(field.1.clone());
        }
        assert(rest.drop_first() == pairs(fields@).skip(i + 1));
        i += 1;
    }
    assert(pairs(fields@).skip(i as int).len() == 0);
    None
}

/// An answer of the listener: a status, a body, and the content type of the
/// body where there is one.
#[derive(Debug)]
pub struct Reply {
    pub status: u16,
    pub body: String,
    pub content_type: Option<&'static str>,
}

impl Reply {
    /// Whether this is the acknowledgement of a stored token: 200, the
    /// acknowledging body, sent as plain text.
    pub open spec fn is_acknowledgement(self) -> bool {
        &&& self.status == 200
        &&& self.body@ == ACKNOWLEDGEMENT@
        &&& self.content_type matches Some(kind)
        &&& kind@ == PLAIN_TEXT@
    }

    /// Whether this is the answer with `status` and nothing else: no body,
    /// and so no content type.
    pub open spec fn is_bare(self, status: u16) -> bool {
        &&& self.status == status
        &&& self.body@.len() == 0
        &&& self.content_type is None
    }

    /// The token was stored.
    pub fn acknowledged() -> (reply: Reply)
        ensures
            reply.is_acknowledgement(),
    {
        Reply { status: 200, body: ACKNOWLEDGEMENT.to_owned(), content_type: Some(PLAIN_TEXT) }
    }

    /// An answer without a body.
    pub fn empty(status: u16) -> (reply: Reply)
        ensures
            reply.is_bare(status),
    {
        Reply { status, body: String::new(), content_type: None }
    }
}

/// A request taken in: answered at once, or waiting for the store.
pub enum Exchange {
    /// The answer.
    Answer(Reply),
    /// A capture to run; `Listener::conclude` gives the answer once it ends.
    Store(Capture),
}

/// The status with which the listener answers at once; `None` for a capture,
/// whose answer waits for the store.
pub open spec fn immediate_status(route: RouteView) -> Option<u16> {
    match route {
        RouteView::Capture { .. } => None,
        RouteView::Preflight => Some(200u16),
        RouteView::MissingToken => Some(400u16),
        RouteView::NotFound => Some(404u16),
    }
}

/// The capture listener.
#[derive(Clone, Copy, Debug, PartialEq, Eq, Structural)]
pub struct Listener {
    /// Whether cross-origin access is switched on.
    pub cors: bool,
}

impl Listener {
    /// A listener with cross-origin access switched on or off.
    pub fn new(cors: bool) -> (listener: Listener)
        ensures
            listener.cors == cors,
    {
        Listener { cors }
    }

    /// What a request asks for: what the rules select from the target as
    /// the server reads it.
    pub open spec fn route_of(self, method: Method, target: Seq<char>) -> RouteView {
        selected(self.cors, method, keyed(parsed_target(target)))
    }

    /// The headers of a response after the listener is done with it.
    pub open spec fn decorated(self, headers: Map<Seq<char>, Seq<Seq<char>>>) -> Map<
        Seq<char>,
        Seq<Seq<char>>,
    > {
        if self.cors {
            CORS::stamped(headers)
        } else {
            headers
        }
    }

    /// What a request with an already parsed target asks for; `None` stands
    /// for a target that is no valid request target.
    pub fn select(&self, method: Method, target: &Option<Target>) -> (route: Route)
        ensures
            route@ == selected(self.cors, method, target_view(*target)),
    {
        match method {
            Method::Get | Method::Head => {
                if let Some(parts) = target {
                    if parts.segments.len() == 1 && same_text(
                        parts.segments[0].as_str(),
                        CAPTURE_SEGMENT,
                    ) {
                        proof {
                            assert(texts(parts.segments@) =~= seq![parts.segments@[0]@]);
                        }
                        return match first_value_in(&parts.fields, TOKEN_PARAMETER) {
                            Some(token) => Route::Capture { token },
                            None => Route::MissingToken,
                        };
                    }
                    proof {
                        if texts(parts.segments@) == seq![CAPTURE_SEGMENT@] {
                            assert(texts(parts.segments@).len() == 1);
                            assert(texts(parts.segments@)[0] == parts.segments@[0]@);
                        }
                    }
                }
                Route::NotFound
            },
            Method::Options if self.cors => Route::Preflight,
            _ => Route::NotFound,
        }
    }

    /// What a request asks for.
    pub fn route(&self, method: Method, target: &str) -> (route: Route)
        ensures
            route@ == self.route_of(method, target@),
    {
        let target = match parse_target(target) {
            Some((segments, fields)) => Some(Target { segments, fields: key_fields(fields) }),
            None => None,
        };
        self.select(method, &target)
    }

    /// Turns a route into an exchange. A capture goes to `store`; without a
    /// store it cannot run and is answered with 500.
    pub fn dispatch(route: Route, store: Option<TokenStore>) -> (exchange: Exchange)
        ensures
            match route@ {
                RouteView::Capture { token } => match store {
                    Some(place) => {
                        &&& exchange matches Exchange::Store(started)
                        &&& started.token() == token
                        &&& started.root() == place.root
                        &&& started.phase() == Phase::Pending(StoreStep::EnsureDirectory)
                    },
                    None => {
                        &&& exchange matches Exchange::Answer(reply)
                        &&& reply.is_bare(500)
                    },
                },
                other => {
                    &&& exchange matches Exchange::Answer(reply)
                    &&& immediate_status(other) matches Some(status)
                    &&& reply.is_bare(status)
                },
            },
    {
        match route {
            Route::Capture { token } => match store {
                Some(place) => Exchange::Store(Capture::begin(place, token)),
                None => Exchange::Answer(Reply::empty(500)),
            },
            Route::Preflight => Exchange::Answer(Reply::empty(200)),
            Route::MissingToken => Exchange::Answer(Reply::empty(400)),
            Route::NotFound => Exchange::Answer(Reply::empty(404)),
        }
    }

    /// Takes a request in, with the store that a capture is to go to.
    pub fn receive_into(&self, store: Option<TokenStore>, method: Method, target: &str) -> (exchange:
        Exchange)
        ensures
            match self.route_of(method, target@) {
                RouteView::Capture { token } => match store {
                    Some(place) => {
                        &&& exchange matches Exchange::Store(started)
                        &&& started.token() == token
                        &&& started.root() == place.root
                        &&& started.phase() == Phase::Pending(StoreStep::EnsureDirectory)
                    },
                    None => {
                        &&& exchange matches Exchange::Answer(reply)
                        &&& reply.is_bare(500)
                    },
                },
                other => {
                    &&& exchange matches Exchange::Answer(reply)
                    &&& immediate_status(other) matches Some(status)
                    &&& reply.is_bare(status)
                },
            },
    {
        Self::dispatch(self.route(method, target), store)
    }

    /// Takes a request in. A capture goes to the store of the current user,
    /// which is looked up afresh for it.
    pub fn receive(&self, method: Method, target: &str) -> (exchange: Exchange)
        ensures
            match self.route_of(method, target@) {
                RouteView::Capture { token } => {
                    ||| {
                        &&& exchange matches Exchange::Store(started)
                        &&& started.token() == token
                        &&& started.phase() == Phase::Pending(StoreStep::EnsureDirectory)
                    }
                    ||| {
                        &&& exchange matches Exchange::Answer(reply)
                        &&& reply.is_bare(500)
                    }
                },
                other => {
                    &&& exchange matches Exchange::Answer(reply)
                    &&& immediate_status(other) matches Some(status)
                    &&& reply.is_bare(status)
                },
            },
    {
        match self.route(method, target) {
            Route::Capture { token } => match capture(token) {
                Some(started) => Exchange::Store(started),
                None => Exchange::Answer(Reply::empty(500)),
            },
            other => Self::dispatch(other, None),
        }
    }

    /// The answer to a capture: the acknowledgement once the token is
    /// stored, 500 once an operation has failed, `None` while one is pending.
    pub fn conclude(capture: &Capture) -> (reply: Option<Reply>)
        ensures
            match capture.phase() {
                Phase::Pending(_) => reply is None,
                Phase::Stored => {
                    &&& reply matches Some(answer)
                    &&& answer.is_acknowledgement()
                },
                Phase::Failed(_) => {
                    &&& reply matches Some(answer)
                    &&& answer.is_bare(500)
                },
            },
    {
        match capture.result() {
            None => None,
            Some(Ok(_)) => Some(Reply::acknowledged()),
            Some(Err(_)) => Some(Reply::empty(500)),
        }
    }

    /// Finishes a response before it goes out: with cross-origin access
    /// switched on the policy is stamped on it, else it stays as it is.
    pub fn decorate(&self, response: &mut rocket::Response<'_>)
        ensures
            header_values(*final(response)) == self.decorated(header_values(*old(response))),
            status_code(*final(response)) == status_code(*old(response)),
            body_bytes(*final(response)) == body_bytes(*old(response)),
    {
        if self.cors {
            CORS.on_response(response);
        }
    }
}

/// Cross-origin access is a switch. Switched on, an `OPTIONS` request to any
/// path is answered with 200, and a response that the listener has finished
/// carries `Access-Control-Allow-Origin: *`. Switched off, the same request is
/// not found and answered with 404, and the listener adds no header to any
/// response.
pub proof fn lemma_cors_switch(
    listener: Listener,
    target: Seq<char>,
    headers: Map<Seq<char>, Seq<Seq<char>>>,
)
    ensures
        listener.cors ==> {
            &&& listener.route_of(Method::Options, target) == RouteView::Preflight
            &&& immediate_status(RouteView::Preflight) == Some(200u16)
            &&& listener.decorated(headers).contains_key(fold_name(ALLOW_ORIGIN@))
            &&& listener.decorated(headers)[fold_name(ALLOW_ORIGIN@)] == seq!["*"@]
        },
        !listener.cors ==> {
            &&& listener.route_of(Method::Options, target) == RouteView::NotFound
            &&& immediate_status(RouteView::NotFound) == Some(404u16)
            &&& listener.decorated(headers) == headers
        },
{
    lemma_stamped_headers(headers);
}


} // verus!
