//! The API client: one HTTP request per domain action against a fixed base
//! URL, and the interpretation of each response.
//!
//! Building a request — its URL, its bearer token, its JSON body with
//! escaped string values — is verified here, as is the reading of each
//! reply: a call succeeds exactly on a success status whose body decodes to
//! the expected record. Only the transport itself, one POST per action, is
//! left to the [`HttpPost`] port, which `main` implements with a real HTTP
//! client; nothing is assumed about what it returns.

use vstd::prelude::*;
use vstd::string::StrSliceExecFns;
use vstd::string::StringExecFns;

use crate::ApiError;
use crate::ReqResult;
use crate::article::decode_article_fields;
use crate::article::decode_user_fields;
use crate::article::spec_article_fields_ok;
use crate::article::spec_nullable_string_field;
use crate::article::spec_user_fields_ok;
use crate::json::json_get;
use crate::json::parse_json_text;
use crate::json::spec_field;
use crate::json::spec_parse_json;

verus! {

/// The fixed HTTP origin and path prefix of the backend.
pub const BASE_URL: &'static str = "http://localhost:3000/api/";

/// One POST request to the backend: its URL, its bearer token if the call
/// is authenticated, and its JSON body if it carries one.
#[derive(Debug)]
pub struct ApiRequest {
    pub url: String,
    pub bearer: Option<String>,
    pub body: Option<String>,
}

/// What one HTTP round trip produced: a response with its status code and
/// body text, or a transport failure before any response arrived.
#[derive(Debug)]
pub enum HttpOutcome {
    Response { status: u16, body: String },
    TransportFailure,
}

/// The transport: performs one POST request and hands back the outcome.
/// Nothing is specified about it; every contract of the library holds
/// whatever an implementation returns.
pub trait HttpPost {
    fn post(&mut self, req: &ApiRequest) -> HttpOutcome;
}

/// The body text of a response with a success (2xx) status.
pub open spec fn spec_success_body(o: HttpOutcome) -> Option<Seq<char>> {
    match o {
        HttpOutcome::Response { status, body } => if 200 <= status < 300 {
            Some(body@)
        } else {
            None
        },
        HttpOutcome::TransportFailure => None,
    }
}

/// The lower-case hexadecimal digit of a value below 16.
pub open spec fn spec_hex_digit(n: int) -> char {
    if n == 0 {
        '0'
    } else if n == 1 {
        '1'
    } else if n == 2 {
        '2'
    } else if n == 3 {
        '3'
    } else if n == 4 {
        '4'
    } else if n == 5 {
        '5'
    } else if n == 6 {
        '6'
    } else if n == 7 {
        '7'
    } else if n == 8 {
        '8'
    } else if n == 9 {
        '9'
    } else if n == 10 {
        'a'
    } else if n == 11 {
        'b'
    } else if n == 12 {
        'c'
    } else if n == 13 {
        'd'
    } else if n == 14 {
        'e'
    } else {
        'f'
    }
}

/// How one character appears inside a JSON string literal: quote and
/// backslash are escaped, control characters take the `\u00XX` form, and
/// every other character stands for itself.
pub open spec fn spec_escaped_char(c: char) -> Seq<char> {
    if c == '"' {
        seq!['\\', '"']
    } else if c == '\\' {
        seq!['\\', '\\']
    } else if (c as u32) < 32 {
        seq!['\\', 'u', '0', '0', spec_hex_digit(c as u32 as int / 16), spec_hex_digit(
            c as u32 as int % 16,
        )]
    } else {
        seq![c]
    }
}

/// A string as it appears inside a JSON string literal, character by
/// character.
pub open spec fn spec_escape(s: Seq<char>) -> Seq<char>
    decreases s.len(),
{
    if s.len() == 0 {
        Seq::empty()
    } else {
        spec_escape(s.drop_last()) + spec_escaped_char(s.last())
    }
}

/// Relies on `String::push`: appends one character.
#[verifier::external_body]
fn push_char(s: &mut String, c: char)
    ensures
        final(s)@ == old(s)@.push(c),
{
    s.push(c);
}

/// The lower-case hexadecimal digit of a value below 16.
fn hex_digit(n: u32) -> (r: char)
    requires
        n < 16,
    ensures
        r == spec_hex_digit(n as int),
{
    if n == 0 {
        '0'
    } else if n == 1 {
        '1'
    } else if n == 2 {
        '2'
    } else if n == 3 {
        '3'
    } else if n == 4 {
        '4'
    } else if n == 5 {
        '5'
    } else if n == 6 {
        '6'
    } else if n == 7 {
        '7'
    } else if n == 8 {
        '8'
    } else if n == 9 {
        '9'
    } else if n == 10 {
        'a'
    } else if n == 11 {
        'b'
    } else if n == 12 {
        'c'
    } else if n == 13 {
        'd'
    } else if n == 14 {
        'e'
    } else {
        'f'
    }
}

/// Appends `s` to `out` as it appears inside a JSON string literal.
fn push_escaped(out: &mut String, s: &str)
    ensures
        final(out)@ == old(out)@ + spec_escape(s@),
{
    let n = s.unicode_len();
    let mut i: usize = 0;
    while i < n
        invariant
            n == s@.len(),
            i <= n,
            out@ == old(out)@ + spec_escape(s@.take(i as int)),
        decreases n - i,
    {
        let c = s.get_char(i);
        if c == '"' {
            push_char(out, '\\');
            push_char(out, '"');
        } else if c == '\\' {
            push_char(out, '\\');
            push_char(out, '\\');
        } else if (c as u32) < 32 {
            push_char(out, '\\');
            push_char(out, 'u');
            push_char(out, '0');
            push_char(out, '0');
            push_char(out, hex_digit(c as u32 / 16));
            push_char(out, hex_digit(c as u32 % 16));
        } else {
            push_char(out, c);
        }
        proof {
            assert(s@.take(i + 1).drop_last() =~= s@.take(i as int));
            assert(s@.take(i + 1).last() == s@[i as int]);
            assert(out@ =~= old(out)@ + spec_escape(s@.take(i + 1)));
        }
        i += 1;
    }
    proof {
        assert(s@.take(n as int) =~= s@);
    }
}

/// The registration request body: the three fields nested under `user`.
pub open spec fn spec_register_body(
    email: Seq<char>,
    password: Seq<char>,
    username: Seq<char>,
) -> Seq<char> {
    "{\"user\":{\"username\":\""@ + spec_escape(username) + "\",\"email\":\""@ + spec_escape(email)
        + "\",\"password\":\""@ + spec_escape(password) + "\"}}"@
}

/// The authentication request body: email and password nested under `user`.
pub open spec fn spec_login_body(email: Seq<char>, password: Seq<char>) -> Seq<char> {
    "{\"user\":{\"email\":\""@ + spec_escape(email) + "\",\"password\":\""@ + spec_escape(password)
        + "\"}}"@
}

/// The tag-list part of an article body: the tags as a JSON array of
/// string literals.
pub open spec fn spec_tag_array(tags: Seq<Seq<char>>) -> Seq<char>
    decreases tags.len(),
{
    if tags.len() == 0 {
        Seq::empty()
    } else if tags.len() == 1 {
        "\""@ + spec_escape(tags[0]) + "\""@
    } else {
        spec_tag_array(tags.drop_last()) + ",\""@ + spec_escape(tags.last()) + "\""@
    }
}

/// The article-creation request body: the fields and the tag list nested
/// under `article`.
pub open spec fn spec_article_body(
    title: Seq<char>,
    description: Seq<char>,
    body: Seq<char>,
    tags: Seq<Seq<char>>,
) -> Seq<char> {
    "{\"article\":{\"title\":\""@ + spec_escape(title) + "\",\"description\":\""@ + spec_escape(
        description,
    ) + "\",\"body\":\""@ + spec_escape(body) + "\",\"tagList\":["@ + spec_tag_array(tags) + "]}}"@
}

/// The URL of an endpoint under the fixed base.
pub fn endpoint_url(path: &str) -> (r: String)
    ensures
        r@ == BASE_URL@ + path@,
{
    let mut u = BASE_URL.to_owned();
    u.append(path);
    u
}

/// The URL that favorites one article, named by its slug.
pub fn favorite_url(slug: &str) -> (r: String)
    ensures
        r@ == BASE_URL@ + "articles/"@ + slug@ + "/favorite"@,
{
    let mut u = endpoint_url("articles/");
    u.append(slug);
    u.append("/favorite");
    u
}

/// The URL that follows one user, named by username.
pub fn follow_url(username: &str) -> (r: String)
    ensures
        r@ == BASE_URL@ + "profiles/"@ + username@ + "/follow"@,
{
    let mut u = endpoint_url("profiles/");
    u.append(username);
    u.append("/follow");
    u
}

/// The registration request body as text.
pub fn register_body(email: &str, password: &str, username: &str) -> (r: String)
    ensures
        r@ == spec_register_body(email@, password@, username@),
{
    let mut out = "{\"user\":{\"username\":\"".to_owned();
    push_escaped(&mut out, username);
    out.append("\",\"email\":\"");
    push_escaped(&mut out, email);
    out.append("\",\"password\":\"");
    push_escaped(&mut out, password);
    out.append("\"}}");
    proof {
        assert(out@ =~= spec_register_body(email@, password@, username@));
    }
    out
}

/// The authentication request body as text.
pub fn login_body(email: &str, password: &str) -> (r: String)
    ensures
        r@ == spec_login_body(email@, password@),
{
    let mut out = "{\"user\":{\"email\":\"".to_owned();
    push_escaped(&mut out, email);
    out.append("\",\"password\":\"");
    push_escaped(&mut out, password);
    out.append("\"}}");
    proof {
        assert(out@ =~= spec_login_body(email@, password@));
    }
    out
}

/// The article-creation request body as text.
pub fn article_body(title: &str, description: &str, body: &str, tags: &Vec<String>) -> (r: String)
    ensures
        r@ == spec_article_body(title@, description@, body@, tags.deep_view()),
{
    let mut out = "{\"article\":{\"title\":\"".to_owned();
    push_escaped(&mut out, title);
    out.append("\",\"description\":\"");
    push_escaped(&mut out, description);
    out.append("\",\"body\":\"");
    push_escaped(&mut out, body);
    out.append("\",\"tagList\":[");
    let n = tags.len();
    let mut i: usize = 0;
    proof {
        assert(tags.deep_view().take(0) =~= Seq::<Seq<char>>::empty());
    }
    while i < n
        invariant
            n == tags@.len(),
            i <= n,
            tags.deep_view().len() == n,
            out@ == "{\"article\":{\"title\":\""@ + spec_escape(title@) + "\",\"description\":\""@
                + spec_escape(description@) + "\",\"body\":\""@ + spec_escape(body@)
                + "\",\"tagList\":["@ + spec_tag_array(tags.deep_view().take(i as int)),
        decreases n - i,
    {
        if i > 0 {
            out.append(",\"");
        } else {
            out.append("\"");
        }
        push_escaped(&mut out, tags[i].as_str());
        out.append("\"");
        proof {
            assert(tags.deep_view().take(i + 1).drop_last() =~= tags.deep_view().take(i as int));
            assert(tags.deep_view().take(i + 1).last() == tags@[i as int]@);
            assert(out@ =~= "{\"article\":{\"title\":\""@ + spec_escape(title@)
                + "\",\"description\":\""@ + spec_escape(description@) + "\",\"body\":\""@
                + spec_escape(body@) + "\",\"tagList\":["@ + spec_tag_array(
                tags.deep_view().take(i + 1),
            ));
        }
        i += 1;
    }
    out.append("]}}");
    proof {
        assert(tags.deep_view().take(n as int) =~= tags.deep_view());
        assert(out@ =~= spec_article_body(title@, description@, body@, tags.deep_view()));
    }
    out
}

/// The registration request: POST to the users collection, no bearer.
pub fn register_request(email: &str, password: &str, username: &str) -> (r: ApiRequest)
    ensures
        r.url@ == BASE_URL@ + "users"@,
        r.bearer is None,
        r.body is Some && r.body->0@ == spec_register_body(email@, password@, username@),
{
    ApiRequest {
        url: endpoint_url("users"),
        bearer: None,
        body: Some(register_body(email, password, username)),
    }
}

/// The article-creation request: POST to the articles endpoint, bearer
/// authenticated.
pub fn create_article_request(
    token: &str,
    title: &str,
    description: &str,
    body: &str,
    tags: &Vec<String>,
) -> (r: ApiRequest)
    ensures
        r.url@ == BASE_URL@ + "articles"@,
        r.bearer is Some && r.bearer->0@ == token@,
        r.body is Some && r.body->0@ == spec_article_body(
            title@,
            description@,
            body@,
            tags.deep_view(),
        ),
{
    ApiRequest {
        url: endpoint_url("articles"),
        bearer: Some(token.to_owned()),
        body: Some(article_body(title, description, body, tags)),
    }
}

/// The favorite request: POST to the per-slug favorite endpoint, bearer
/// authenticated, no body.
pub fn favorite_request(token: &str, slug: &str) -> (r: ApiRequest)
    ensures
        r.url@ == BASE_URL@ + "articles/"@ + slug@ + "/favorite"@,
        r.bearer is Some && r.bearer->0@ == token@,
        r.body is None,
{
    ApiRequest { url: favorite_url(slug), bearer: Some(token.to_owned()), body: None }
}

/// The follow request: POST to the per-username follow endpoint, bearer
/// authenticated, no body.
pub fn follow_request(token: &str, username: &str) -> (r: ApiRequest)
    ensures
        r.url@ == BASE_URL@ + "profiles/"@ + username@ + "/follow"@,
        r.bearer is Some && r.bearer->0@ == token@,
        r.body is None,
{
    ApiRequest { url: follow_url(username), bearer: Some(token.to_owned()), body: None }
}

/// The token that a user response yields: the body must parse, hold a
/// `user` object whose every field decodes, and the token field's value is
/// taken (empty if the backend sent `null`).
pub open spec fn spec_token_of_body(body: Seq<char>) -> Option<Seq<char>> {
    match spec_parse_json(body) {
        Some(root) => match spec_field(root, "user"@) {
            Some(u) => if spec_user_fields_ok(u) {
                Some(spec_nullable_string_field(u, "token"@)->0)
            } else {
                None
            },
            None => None,
        },
        None => None,
    }
}

/// The slug that an article response yields: the body must parse, hold an
/// `article` object whose every field decodes, and the slug field's value
/// is taken (empty if the backend sent `null`).
pub open spec fn spec_slug_of_body(body: Seq<char>) -> Option<Seq<char>> {
    match spec_parse_json(body) {
        Some(root) => match spec_field(root, "article"@) {
            Some(a) => if spec_article_fields_ok(a) {
                Some(spec_nullable_string_field(a, "slug"@)->0)
            } else {
                None
            },
            None => None,
        },
        None => None,
    }
}

/// Reads a user response: the token on a success status whose body decodes
/// as a user record, a request failure on anything else.
pub fn token_reply(o: &HttpOutcome) -> (r: ReqResult<String>)
    ensures
        r is Ok <==> (spec_success_body(*o) is Some && spec_token_of_body(
            spec_success_body(*o)->0,
        ) is Some),
        r is Ok ==> r->Ok_0@ == spec_token_of_body(spec_success_body(*o)->0)->0,
        r is Err ==> r->Err_0 == ApiError::RequestFailed,
{
    match o {
        HttpOutcome::Response { status, body } => {
            if 200 <= *status && *status < 300 {
                match parse_json_text(body.as_str()) {
                    Some(root) => match json_get(&root, "user") {
                        Some(u) => match decode_user_fields(u) {
                            Some(f) => Ok(f.token),
                            None => Err(ApiError::RequestFailed),
                        },
                        None => Err(ApiError::RequestFailed),
                    },
                    None => Err(ApiError::RequestFailed),
                }
            } else {
                Err(ApiError::RequestFailed)
            }
        },
        HttpOutcome::TransportFailure => Err(ApiError::RequestFailed),
    }
}

/// Reads an article response: the slug on a success status whose body
/// decodes as an article record, a request failure on anything else.
pub fn slug_reply(o: &HttpOutcome) -> (r: ReqResult<String>)
    ensures
        r is Ok <==> (spec_success_body(*o) is Some && spec_slug_of_body(
            spec_success_body(*o)->0,
        ) is Some),
        r is Ok ==> r->Ok_0@ == spec_slug_of_body(spec_success_body(*o)->0)->0,
        r is Err ==> r->Err_0 == ApiError::RequestFailed,
{
    match o {
        HttpOutcome::Response { status, body } => {
            if 200 <= *status && *status < 300 {
                match parse_json_text(body.as_str()) {
                    Some(root) => match json_get(&root, "article") {
                        Some(a) => match decode_article_fields(a) {
                            Some(f) => Ok(f.slug),
                            None => Err(ApiError::RequestFailed),
                        },
                        None => Err(ApiError::RequestFailed),
                    },
                    None => Err(ApiError::RequestFailed),
                }
            } else {
                Err(ApiError::RequestFailed)
            }
        },
        HttpOutcome::TransportFailure => Err(ApiError::RequestFailed),
    }
}

/// Reads a response whose body is discarded: success exactly on a success
/// status, a request failure on a non-success status or a transport error.
pub fn unit_reply(o: &HttpOutcome) -> (r: ReqResult<()>)
    ensures
        r is Ok <==> spec_success_body(*o) is Some,
        r is Err ==> r->Err_0 == ApiError::RequestFailed,
{
    match o {
        HttpOutcome::Response { status, body: _ } => {
            if 200 <= *status && *status < 300 {
                Ok(())
            } else {
                Err(ApiError::RequestFailed)
            }
        },
        HttpOutcome::TransportFailure => Err(ApiError::RequestFailed),
    }
}

/// Registers a user and returns the authentication token from the
/// response. The outcome is the transport's to decide; whatever comes back
/// is read as `token_reply` specifies.
pub fn registration<C: HttpPost>(
    client: &mut C,
    email: &str,
    password: &str,
    username: &str,
) -> (r: ReqResult<String>)
    ensures
        r is Err ==> r->Err_0 == ApiError::RequestFailed,
{
    let req = register_request(email, password, username);
    let o = client.post(&req);
    token_reply(&o)
}

/// Creates an article for the user owning `token` and returns the
/// server-assigned slug from the response. The outcome is the transport's
/// to decide; whatever comes back is read as `slug_reply` specifies.
pub fn create_article<C: HttpPost>(
    client: &mut C,
    token: &str,
    title: &str,
    description: &str,
    body: &str,
    tags: &Vec<String>,
) -> (r: ReqResult<String>)
    ensures
        r is Err ==> r->Err_0 == ApiError::RequestFailed,
{
    let req = create_article_request(token, title, description, body, tags);
    let o = client.post(&req);
    slug_reply(&o)
}

/// Favorites one article for the user owning `token`; the response body is
/// discarded, and a non-success status propagates as a request failure.
pub fn favorite_article<C: HttpPost>(client: &mut C, token: &str, slug: &str) -> (r: ReqResult<()>)
    ensures
        r is Err ==> r->Err_0 == ApiError::RequestFailed,
{
    let req = favorite_request(token, slug);
    let o = client.post(&req);
    unit_reply(&o)
}

/// Follows one user for the user owning `token`; the response body is
/// discarded, and a non-success status propagates as a request failure.
pub fn follow_user<C: HttpPost>(client: &mut C, token: &str, username: &str) -> (r: ReqResult<()>)
    ensures
        r is Err ==> r->Err_0 == ApiError::RequestFailed,
{
    let req = follow_request(token, username);
    let o = client.post(&req);
    unit_reply(&o)
}

} // verus!
