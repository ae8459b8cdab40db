//! The cross-origin policy that the capture listener stamps on its responses.

use vstd::prelude::*;

verus! {

/// `rocket::Response`, carried through as an opaque value.
#[verifier::external_type_specification]
#[verifier::external_body]
pub struct ExResponse<'r>(rocket::Response<'r>);

/// The headers of a response: each header name, folded to ASCII lower case,
/// with the values stored under it, oldest first.
pub uninterp spec fn header_values(response: rocket::Response<'_>) -> Map<Seq<char>, Seq<Seq<char>>>;

/// The status code of a response; 200 where none was set.
pub uninterp spec fn status_code(response: rocket::Response<'_>) -> u16;

/// The bytes of the body that a response carries; none where it has no body.
pub uninterp spec fn body_bytes(response: rocket::Response<'_>) -> Seq<u8>;

/// An ASCII upper-case letter becomes its lower-case form; every other
/// character stays.
pub open spec fn fold_char(c: char) -> char {
    if 'A' <= c && c <= 'Z' {
        ((c as u32) + 32) as char
    } else {
        c
    }
}

/// A header name as the header collection keys it: compared without regard to
/// ASCII case.
pub open spec fn fold_name(name: Seq<char>) -> Seq<char> {
    name.map_values(|c: char| fold_char(c))
}

/// The header that names the origins allowed to read a response.
pub const ALLOW_ORIGIN: &'static str = "Access-Control-Allow-Origin";

/// The header that names the methods allowed across origins.
pub const ALLOW_METHODS: &'static str = "Access-Control-Allow-Methods";

/// The header that names the request headers allowed across origins.
pub const ALLOW_HEADERS: &'static str = "Access-Control-Allow-Headers";

/// The header that tells whether credentials may go with a request.
pub const ALLOW_CREDENTIALS: &'static str = "Access-Control-Allow-Credentials";

/// The methods allowed across origins: all of them.
pub const ALLOWED_METHODS: &'static str = "GET, HEAD, POST, PUT, PATCH, DELETE, OPTIONS";

/// Calls `rocket::Response::set_header` with a header built by
/// `rocket::http::Header::new`. The response then holds exactly `value` under
/// `name`, whatever it held under that name before, and every other header as
/// it was; status and body are not touched. The result tells whether the name
/// was present before.
#[verifier::external_body]
fn set_header(response: &mut rocket::Response<'_>, name: &'static str, value: &'static str) -> (replaced: bool)
    ensures
        header_values(*final(response)) == header_values(*old(response)).insert(
            fold_name(name@),
            seq![value@],
        ),
        status_code(*final(response)) == status_code(*old(response)),
        body_bytes(*final(response)) == body_bytes(*old(response)),
        replaced == header_values(*old(response)).contains_key(fold_name(name@)),
{
    response.set_header(rocket::http::Header::new(name, value))
}

/// The fairing that opens the listener to every origin.
pub struct CORS;

impl CORS {
    /// A header collection after the policy was stamped on it.
    pub open spec fn stamped(headers: Map<Seq<char>, Seq<Seq<char>>>) -> Map<Seq<char>, Seq<Seq<char>>> {
        headers.insert(fold_name(ALLOW_ORIGIN@), seq!["*"@]).insert(
            fold_name(ALLOW_METHODS@),
            seq![ALLOWED_METHODS@],
        ).insert(fold_name(ALLOW_HEADERS@), seq!["*"@]).insert(
            fold_name(ALLOW_CREDENTIALS@),
            seq!["true"@],
        )
    }

    /// Stamps the policy on a response, whatever its status: the four
    /// headers are set, and status, body and every other header stay.
    pub fn on_response(&self, response: &mut rocket::Response<'_>)
        ensures
            header_values(*final(response)) == Self::stamped(header_values(*old(response))),
            status_code(*final(response)) == status_code(*old(response)),
            body_bytes(*final(response)) == body_bytes(*old(response)),
    {
        set_header(response, ALLOW_ORIGIN, "*");
        set_header(response, ALLOW_METHODS, ALLOWED_METHODS);
        set_header(response, ALLOW_HEADERS, "*");
        set_header(response, ALLOW_CREDENTIALS, "true");
    }
}

/// The moments at which a fairing can be called.
#[derive(Clone, Copy, Debug, PartialEq, Eq, Structural)]
pub enum FairingKind {
    Ignite,
    Liftoff,
    Request,
    Response,
    Shutdown,
}

/// What a fairing tells the server about itself.
#[derive(Clone, Copy, Debug)]
pub struct FairingInfo {
    pub name: &'static str,
    pub kind: FairingKind,
}

/// The name under which the fairing registers.
pub const FAIRING_NAME: &'static str = "Add CORS headers to responses";

impl CORS {
    /// The fairing's name, and that it is to be called on responses.
    pub fn info(&self) -> (info: FairingInfo)
        ensures
            info.name@ == FAIRING_NAME@,
            info.kind == FairingKind::Response,
    {
        FairingInfo { name: FAIRING_NAME, kind: FairingKind::Response }
    }
}

/// Whether `name`, folded, is one of the four header names of the policy.
pub open spec fn is_policy_name(name: Seq<char>) -> bool {
    ||| name == fold_name(ALLOW_ORIGIN@)
    ||| name == fold_name(ALLOW_METHODS@)
    ||| name == fold_name(ALLOW_HEADERS@)
    ||| name == fold_name(ALLOW_CREDENTIALS@)
}

/// The four header names of the policy stay four under folding.
proof fn lemma_policy_names_differ()
    ensures
        fold_name(ALLOW_ORIGIN@) != fold_name(ALLOW_METHODS@),
        fold_name(ALLOW_ORIGIN@) != fold_name(ALLOW_HEADERS@),
        fold_name(ALLOW_ORIGIN@) != fold_name(ALLOW_CREDENTIALS@),
        fold_name(ALLOW_METHODS@) != fold_name(ALLOW_HEADERS@),
        fold_name(ALLOW_METHODS@) != fold_name(ALLOW_CREDENTIALS@),
        fold_name(ALLOW_HEADERS@) != fold_name(ALLOW_CREDENTIALS@),
{
    reveal_strlit("Access-Control-Allow-Origin");
    reveal_strlit("Access-Control-Allow-Methods");
    reveal_strlit("Access-Control-Allow-Headers");
    reveal_strlit("Access-Control-Allow-Credentials");
    assert(fold_name(ALLOW_ORIGIN@).len() == 27);
    assert(fold_name(ALLOW_METHODS@).len() == 28);
    assert(fold_name(ALLOW_HEADERS@).len() == 28);
    assert(fold_name(ALLOW_CREDENTIALS@).len() == 32);
    assert(fold_name(ALLOW_METHODS@)[23] == 't');
    assert(fold_name(ALLOW_HEADERS@)[23] == 'a');
}

/// What a stamped response carries: under each of the four names of the
/// policy exactly the policy's value, whatever stood there before, and under
/// every other name what it carried before.
pub proof fn lemma_stamped_headers(headers: Map<Seq<char>, Seq<Seq<char>>>)
    ensures
        CORS::stamped(headers)[fold_name(ALLOW_ORIGIN@)] == seq!["*"@],
        CORS::stamped(headers)[fold_name(ALLOW_METHODS@)] == seq![ALLOWED_METHODS@],
        CORS::stamped(headers)[fold_name(ALLOW_HEADERS@)] == seq!["*"@],
        CORS::stamped(headers)[fold_name(ALLOW_CREDENTIALS@)] == seq!["true"@],
        forall|name: Seq<char>|
            CORS::stamped(headers).contains_key(name) <==> is_policy_name(name)
                || headers.contains_key(name),
        forall|name: Seq<char>|
            !is_policy_name(name) ==> CORS::stamped(headers)[name] == headers[name],
{
    lemma_policy_names_differ();
}

/// Stamping twice is stamping once.
pub proof fn lemma_stamped_twice(headers: Map<Seq<char>, Seq<Seq<char>>>)
    ensures
        CORS::stamped(CORS::stamped(headers)) == CORS::stamped(headers),
{
    lemma_policy_names_differ();
    assert(CORS::stamped(CORS::stamped(headers)) =~= CORS::stamped(headers));
}


} // verus!
