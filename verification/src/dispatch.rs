//! The request dispatcher: from an endpoint and its arguments to the request
//! that is sent, and from the answer to a result.

use crate::client::{text_of, Esi, TokenModel, TokenState};
use crate::errors::EsiError;
use crate::text::{chars_of, decimal, render_decimal};
use vstd::prelude::*;
use vstd::string::*;

verus! {

/// Whether an endpoint can be called by anyone or on behalf of a user only.
#[derive(Clone, Copy, Debug, PartialEq, Eq, Structural)]
pub enum RequestType {
    Public,
    Authenticated,
}

/// The HTTP verb of an endpoint.
#[derive(Clone, Copy, Debug, PartialEq, Eq, Structural)]
pub enum Verb {
    Get,
    Post,
}

/// One operation of the API: its verb, the template of its path, in which
/// `{name}` stands for an argument, and whether it takes a bearer token.
#[derive(Clone, Copy, Debug, PartialEq, Eq)]
pub struct EndpointDescriptor {
    pub op_id: &'static str,
    pub verb: Verb,
    pub template: &'static str,
    pub auth: RequestType,
}

/// A named argument of a path.
#[derive(Clone, Debug, PartialEq, Eq)]
pub struct PathArg {
    pub name: String,
    pub value: String,
}

/// What a `PathArg` holds, as mathematical values.
pub struct ArgModel {
    pub name: Seq<char>,
    pub value: Seq<char>,
}

impl View for PathArg {
    type V = ArgModel;

    open spec fn view(&self) -> ArgModel {
        ArgModel { name: self.name@, value: self.value@ }
    }
}

impl PathArg {
    /// An argument with a text for its value.
    pub fn text(name: &str, value: &str) -> (r: PathArg)
        ensures
            r@ == (ArgModel { name: name@, value: value@ }),
    {
        PathArg { name: name.to_owned(), value: value.to_owned() }
    }

    /// An argument with an integer for its value, written in decimal.
    pub fn integer(name: &str, value: u64) -> (r: PathArg)
        ensures
            r@ == (ArgModel { name: name@, value: decimal(value as nat) }),
    {
        PathArg { name: name.to_owned(), value: render_decimal(value) }
    }
}

/// The arguments of a call, as mathematical values.
pub open spec fn args_of(args: Seq<PathArg>) -> Seq<ArgModel> {
    args.map_values(|a: PathArg| a@)
}

/// How many characters stand at the start of `s` before its first `}`
/// (all of them, where it has none).
pub open spec fn gap(s: Seq<char>) -> nat
    decreases s.len(),
{
    if s.len() == 0 || s[0] == '}' {
        0
    } else {
        1 + gap(s.drop_first())
    }
}

/// The value of the first argument called `name`.
pub open spec fn lookup(args: Seq<ArgModel>, name: Seq<char>) -> Option<Seq<char>>
    decreases args.len(),
{
    if args.len() == 0 {
        None
    } else if args[0].name == name {
        Some(args[0].value)
    } else {
        lookup(args.drop_first(), name)
    }
}

/// The index of the first `}` behind the first character of `template`, or
/// the length of `template` where there is none.
pub open spec fn closing(template: Seq<char>) -> int {
    1 + gap(template.drop_first()) as int
}

/// The path that a template stands for under the given arguments. The
/// template is read from the left. A `{`, the characters up to the next `}`
/// and that `}` are replaced by the value of the argument that those
/// characters name. Every other character stands for itself, and so does a
/// `{` that opens no name of an argument.
pub open spec fn render(template: Seq<char>, args: Seq<ArgModel>) -> Seq<char>
    decreases template.len(),
{
    if template.len() == 0 {
        Seq::empty()
    } else if template[0] == '{' && closing(template) < template.len() && lookup(
        args,
        template.subrange(1, closing(template)),
    ) is Some {
        lookup(args, template.subrange(1, closing(template)))->0 + render(
            template.subrange(closing(template) + 1, template.len() as int),
            args,
        )
    } else {
        seq![template[0]] + render(template.drop_first(), args)
    }
}

/// Whether an HTTP status reports success.
pub open spec fn is_success(status: u16) -> bool {
    200 <= status && status < 300
}

#[verifier::when_used_as_spec(is_success)]
pub fn status_is_success(status: u16) -> (r: bool)
    ensures
        r == is_success(status),
{
    200 <= status && status < 300
}

/// The index of the first `}` in `t` at or after `from`, or the length of
/// `t` where there is none.
fn find_closing(t: &Vec<char>, from: usize) -> (j: usize)
    requires
        from <= t.len(),
    ensures
        from <= j <= t.len(),
        j - from == gap(t@.subrange(from as int, t.len() as int)),
{
    let mut j = from;
    while j < t.len() && t[j] != '}'
        invariant
            from <= j <= t.len(),
            gap(t@.subrange(from as int, t.len() as int)) == (j - from) + gap(
                t@.subrange(j as int, t.len() as int),
            ),
        decreases t.len() - j,
    {
        assert(t@.subrange(j as int, t.len() as int).drop_first() =~= t@.subrange(
            j + 1,
            t.len() as int,
        ));
        j += 1;
    }
    j
}

/// The characters of `t` from `from` up to `to`, as a string.
fn string_of(t: &Vec<char>, from: usize, to: usize) -> (s: String)
    requires
        from <= to <= t.len(),
    ensures
        s@ == t@.subrange(from as int, to as int),
{
    let mut s = String::new();
    let mut k = from;
    while k < to
        invariant
            from <= k <= to <= t.len(),
            s@ == t@.subrange(from as int, k as int),
        decreases to - k,
    {
        s.push(t[k]);
        k += 1;
        assert(s@ =~= t@.subrange(from as int, k as int));
    }
    s
}

/// The index of the first argument called `name`.
fn find_arg(args: &Vec<PathArg>, name: &String) -> (r: Option<usize>)
    ensures
        match r {
            Some(k) => {
                &&& k < args.len()
                &&& lookup(args_of(args@), name@) == Some(args[k as int].value@)
            },
            None => lookup(args_of(args@), name@) is None,
        },
{
    let mut k: usize = 0;
    assert(args_of(args@).subrange(0, args.len() as int) =~= args_of(args@));
    while k < args.len()
        invariant
            k <= args.len(),
            lookup(args_of(args@), name@) == lookup(
                args_of(args@).subrange(k as int, args.len() as int),
                name@,
            ),
        decreases args.len() - k,
    {
        let ghost rest = args_of(args@).subrange(k as int, args.len() as int);
        assert(rest[0] == args[k as int]@);
        assert(rest.drop_first() =~= args_of(args@).subrange(k + 1, args.len() as int));
        if args[k].name.eq(name) {
            return Some(k);
        }
        k += 1;
    }
    None
}

/// Renders the path of a call: every `{name}` of the template is replaced by
/// the value of the argument of that name.
pub fn render_path(template: &str, args: &Vec<PathArg>) -> (path: String)
    ensures
        path@ == render(template@, args_of(args@)),
{
    let t = chars_of(template);
    let n = t.len();
    let mut path = String::new();
    let mut i: usize = 0;
    assert(t@.subrange(0, n as int) =~= t@);
    while i < n
        invariant
            n == t.len(),
            t@ == template@,
            i <= n,
            path@ + render(t@.subrange(i as int, n as int), args_of(args@)) == render(
                template@,
                args_of(args@),
            ),
        decreases n - i,
    {
        let ghost rest = t@.subrange(i as int, n as int);
        assert(rest.drop_first() =~= t@.subrange(i + 1, n as int));
        let c = t[i];
        let mut replaced = false;
        if c == '{' {
            let j = find_closing(&t, i + 1);
            if j < n {
                let name = string_of(&t, i + 1, j);
                assert(rest.subrange(1, j - i) =~= t@.subrange(i + 1, j as int));
                assert(rest.subrange(j - i + 1, rest.len() as int) =~= t@.subrange(
                    j + 1,
                    n as int,
                ));
                match find_arg(args, &name) {
                    Some(k) => {
                        path.append(args[k].value.as_str());
                        i = j + 1;
                        replaced = true;
                    },
                    None => {},
                }
            }
        }
        if !replaced {
            path.push(c);
            i += 1;
        }
    }
    assert(t@.subrange(n as int, n as int) =~= Seq::<char>::empty());
    path
}

/// The bearer token that a call carries at time `now`. A public call carries
/// none, whatever tokens are held. An authenticated call carries the access
/// token where that is valid, and fails where it is not.
pub open spec fn bearer(auth: RequestType, tokens: TokenModel, now: u64) -> Result<
    Option<Seq<char>>,
    EsiError,
> {
    match auth {
        RequestType::Public => Ok(None),
        RequestType::Authenticated => if tokens.valid_at(now) {
            Ok(Some(tokens.access_token->0))
        } else {
            Err(EsiError::TokenExpiredError)
        },
    }
}

/// The headers that a request carries in addition to those that the client
/// sends with every request: `Authorization` where there is a bearer token,
/// and `Content-Type` where there is a body.
pub open spec fn headers_for(token: Option<Seq<char>>, with_body: bool) -> Seq<
    (Seq<char>, Seq<char>),
> {
    let authorization = match token {
        Some(t) => seq![("Authorization"@, "Bearer "@ + t)],
        None => Seq::empty(),
    };
    let content_type = if with_body {
        seq![("Content-Type"@, "application/json"@)]
    } else {
        Seq::empty()
    };
    authorization + content_type
}

/// The body that goes with a call: the one that was given, for a POST, and
/// none otherwise.
pub open spec fn body_for(verb: Verb, body: Option<Seq<u64>>) -> Option<Seq<u64>> {
    match verb {
        Verb::Post => body,
        Verb::Get => None,
    }
}

/// A request that is ready to be sent.
#[derive(Clone, Debug, PartialEq, Eq)]
pub struct PreparedRequest {
    pub verb: Verb,
    /// The path below the API's root, starting with the version.
    pub path: String,
    pub query: Vec<(String, String)>,
    pub headers: Vec<(String, String)>,
    /// The identifiers that are sent as a JSON array, for a POST.
    pub body: Option<Vec<u64>>,
}

/// What a `PreparedRequest` holds, as mathematical values.
pub struct RequestModel {
    pub verb: Verb,
    pub path: Seq<char>,
    pub query: Seq<(Seq<char>, Seq<char>)>,
    pub headers: Seq<(Seq<char>, Seq<char>)>,
    pub body: Option<Seq<u64>>,
}

/// The identifiers of a body.
pub open spec fn body_of(body: Option<Vec<u64>>) -> Option<Seq<u64>> {
    match body {
        Some(ids) => Some(ids@),
        None => None,
    }
}

impl View for PreparedRequest {
    type V = RequestModel;

    open spec fn view(&self) -> RequestModel {
        RequestModel {
            verb: self.verb,
            path: self.path@,
            query: self.query.deep_view(),
            headers: self.headers.deep_view(),
            body: body_of(self.body),
        }
    }
}

/// The request of an outcome, or its failure.
pub open spec fn request_of(r: Result<PreparedRequest, EsiError>) -> Result<
    RequestModel,
    EsiError,
> {
    match r {
        Ok(request) => Ok(request@),
        Err(e) => Err(e),
    }
}

/// The request that a call of `endpoint` amounts to at time `now`, for a
/// client of the given API version and tokens. The path is the version and
/// the rendered template. A body goes with a POST only.
pub open spec fn prepared(
    version: Seq<char>,
    tokens: TokenModel,
    endpoint: EndpointDescriptor,
    args: Seq<ArgModel>,
    query: Seq<(Seq<char>, Seq<char>)>,
    body: Option<Seq<u64>>,
    now: u64,
) -> Result<RequestModel, EsiError> {
    match bearer(endpoint.auth, tokens, now) {
        Err(e) => Err(e),
        Ok(token) => Ok(
            RequestModel {
                verb: endpoint.verb,
                path: seq!['/'] + version + render(endpoint.template@, args),
                query,
                headers: headers_for(token, body_for(endpoint.verb, body) is Some),
                body: body_for(endpoint.verb, body),
            },
        ),
    }
}

/// What an answer of the API amounts to. A status outside 200..=299 is a
/// failure of the API, with the status and the body as they came. A body
/// that came with success but could not be read as the expected type is a
/// failure to deserialize, with the body as it came.
pub open spec fn response_outcome<T>(status: u16, body: String, parsed: Option<T>) -> Result<
    T,
    EsiError,
> {
    if !is_success(status) {
        Err(EsiError::ApiError { status, body })
    } else if parsed is None {
        Err(EsiError::DeserializationError { raw_body: body })
    } else {
        Ok(parsed->0)
    }
}

/// Turns an answer of the API into the result of the call. A caller passes
/// the HTTP status, the body as text, and the value that the body was read
/// as, if it could be read.
pub fn complete_response<T>(status: u16, body: String, parsed: Option<T>) -> (r: Result<
    T,
    EsiError,
>)
    ensures
        r == response_outcome(status, body, parsed),
{
    if !status_is_success(status) {
        return Err(EsiError::ApiError { status, body });
    }
    match parsed {
        Some(value) => Ok(value),
        None => Err(EsiError::DeserializationError { raw_body: body }),
    }
}

impl TokenState {
    /// The bearer token that a call of the given kind carries at time `now`.
    pub fn bearer_for(&self, auth: RequestType, now: u64) -> (r: Result<Option<String>, EsiError>)
        ensures
            match r {
                Ok(token) => bearer(auth, self@, now) == Ok::<Option<Seq<char>>, EsiError>(
                    text_of(token),
                ),
                Err(e) => bearer(auth, self@, now) == Err::<Option<Seq<char>>, EsiError>(e),
            },
    {
        match auth {
            RequestType::Public => Ok(None),
            RequestType::Authenticated => {
                if !self.is_valid(now) {
                    return Err(EsiError::TokenExpiredError);
                }
                match &self.access_token {
                    Some(token) => Ok(Some(token.clone())),
                    None => Err(EsiError::TokenExpiredError),
                }
            },
        }
    }
}

/// The headers of a request with the given bearer token, with or without a
/// body.
fn request_headers(token: Option<String>, with_body: bool) -> (r: Vec<(String, String)>)
    ensures
        r.deep_view() == headers_for(text_of(token), with_body),
{
    let mut headers: Vec<(String, String)> = Vec::new();
    match token {
        Some(t) => {
            let mut value = String::from_str("Bearer ");
            value.append(t.as_str());
            headers.push((String::from_str("Authorization"), value));
        },
        None => {},
    }
    if with_body {
        headers.push((String::from_str("Content-Type"), String::from_str("application/json")));
    }
    assert(headers.deep_view() =~= headers_for(text_of(token), with_body));
    headers
}

impl Esi {
    /// Prepares a call of `endpoint`: decides whether it may be made at time
    /// `now`, renders its path and attaches the bearer token where the
    /// endpoint takes one. Nothing is sent.
    pub fn prepare(
        &self,
        endpoint: &EndpointDescriptor,
        args: &Vec<PathArg>,
        query: Vec<(String, String)>,
        body: Option<Vec<u64>>,
        now: u64,
    ) -> (r: Result<PreparedRequest, EsiError>)
        ensures
            request_of(r) == prepared(
                self.config@.version,
                self.tokens@,
                *endpoint,
                args_of(args@),
                query.deep_view(),
                body_of(body),
                now,
            ),
    {
        let token = self.tokens.bearer_for(endpoint.auth, now)?;
        let mut path = String::from_str("/");
        proof {
            reveal_strlit("/");
            assert("/"@ =~= seq!['/']);
        }
        path.append(self.config.version());
        let rendered = render_path(endpoint.template, args);
        path.append(rendered.as_str());
        let body = match endpoint.verb {
            Verb::Post => body,
            Verb::Get => None,
        };
        let headers = request_headers(token, body.is_some());
        Ok(PreparedRequest { verb: endpoint.verb, path, query, headers, body })
    }
}

/// No character of `s` is `c`.
pub open spec fn free_of(s: Seq<char>, c: char) -> bool {
    forall|i: int| 0 <= i < s.len() ==> #[trigger] s[i] != c
}

/// A name without `}`, followed by `}`, ends where the name ends.
proof fn lemma_gap_of_name(name: Seq<char>, rest: Seq<char>)
    requires
        free_of(name, '}'),
    ensures
        gap(name + seq!['}'] + rest) == name.len(),
    decreases name.len(),
{
    let s = name + seq!['}'] + rest;
    if name.len() == 0 {
        assert(s[0] == '}');
    } else {
        assert(s[0] == name[0]);
        assert(s.drop_first() =~= name.drop_first() + seq!['}'] + rest);
        assert(free_of(name.drop_first(), '}')) by {
            assert forall|i: int| 0 <= i < name.drop_first().len() implies name.drop_first()[i]
                != '}' by {
                assert(name.drop_first()[i] == name[i + 1]);
            }
        }
        lemma_gap_of_name(name.drop_first(), rest);
    }
}

/// Text without `{` at the start of a template stands for itself.
pub proof fn lemma_render_literal(literal: Seq<char>, rest: Seq<char>, args: Seq<ArgModel>)
    requires
        free_of(literal, '{'),
    ensures
        render(literal + rest, args) == literal + render(rest, args),
    decreases literal.len(),
{
    if literal.len() == 0 {
        assert(literal + rest =~= rest);
        assert(literal + render(rest, args) =~= render(rest, args));
    } else {
        let t = literal + rest;
        assert(t[0] == literal[0]);
        assert(t.drop_first() =~= literal.drop_first() + rest);
        assert(free_of(literal.drop_first(), '{')) by {
            let tail = literal.drop_first();
            assert forall|i: int| 0 <= i < tail.len() implies tail[i] != '{' by {
                assert(tail[i] == literal[i + 1]);
            }
        }
        lemma_render_literal(literal.drop_first(), rest, args);
        assert(seq![t[0]] + (literal.drop_first() + render(rest, args)) =~= literal + render(
            rest,
            args,
        ));
    }
}

/// A template without `{` stands for itself.
pub proof fn lemma_render_plain(template: Seq<char>, args: Seq<ArgModel>)
    requires
        free_of(template, '{'),
    ensures
        render(template, args) == template,
{
    lemma_render_literal(template, Seq::empty(), args);
    assert(template + Seq::<char>::empty() =~= template);
}

/// A placeholder at the start of a template is replaced by the value of the
/// argument that it names.
pub proof fn lemma_render_placeholder(
    name: Seq<char>,
    rest: Seq<char>,
    args: Seq<ArgModel>,
)
    requires
        free_of(name, '}'),
        lookup(args, name) is Some,
    ensures
        render(seq!['{'] + name + seq!['}'] + rest, args) == lookup(args, name)->0 + render(
            rest,
            args,
        ),
{
    let t = seq!['{'] + name + seq!['}'] + rest;
    assert(t[0] == '{');
    assert(t.drop_first() =~= name + seq!['}'] + rest);
    lemma_gap_of_name(name, rest);
    assert(closing(t) == 1 + name.len());
    assert(t.subrange(1, closing(t)) =~= name);
    assert(t.subrange(closing(t) + 1, t.len() as int) =~= rest);
}

/// A template with one placeholder stands for its text with the value of
/// the named argument in the placeholder's place.
pub proof fn lemma_render_one_placeholder(
    before: Seq<char>,
    name: Seq<char>,
    after: Seq<char>,
    args: Seq<ArgModel>,
)
    requires
        free_of(before, '{'),
        free_of(name, '}'),
        free_of(after, '{'),
        lookup(args, name) is Some,
    ensures
        render(before + seq!['{'] + name + seq!['}'] + after, args) == before + lookup(
            args,
            name,
        )->0 + after,
{
    let placeholder = seq!['{'] + name + seq!['}'] + after;
    assert(before + seq!['{'] + name + seq!['}'] + after =~= before + placeholder);
    lemma_render_literal(before, placeholder, args);
    lemma_render_placeholder(name, after, args);
    lemma_render_plain(after, args);
    assert(before + (lookup(args, name)->0 + after) =~= before + lookup(args, name)->0 + after);
}

/// An authenticated call is not prepared while no access token is held.
pub proof fn lemma_no_token_no_request(
    version: Seq<char>,
    tokens: TokenModel,
    endpoint: EndpointDescriptor,
    args: Seq<ArgModel>,
    query: Seq<(Seq<char>, Seq<char>)>,
    body: Option<Seq<u64>>,
    now: u64,
)
    requires
        endpoint.auth == RequestType::Authenticated,
        tokens.access_token is None,
    ensures
        prepared(version, tokens, endpoint, args, query, body, now) == Err::<
            RequestModel,
            EsiError,
        >(EsiError::TokenExpiredError),
{
}

/// An authenticated call is not prepared once the access token has expired,
/// nor while its expiration is unknown.
pub proof fn lemma_expired_token_no_request(
    version: Seq<char>,
    tokens: TokenModel,
    endpoint: EndpointDescriptor,
    args: Seq<ArgModel>,
    query: Seq<(Seq<char>, Seq<char>)>,
    body: Option<Seq<u64>>,
    now: u64,
)
    requires
        endpoint.auth == RequestType::Authenticated,
        tokens.access_expiration is None || tokens.access_expiration->0 <= now,
    ensures
        prepared(version, tokens, endpoint, args, query, body, now) == Err::<
            RequestModel,
            EsiError,
        >(EsiError::TokenExpiredError),
{
}

/// A public call is always prepared, and none of its headers is
/// `Authorization`, whatever tokens are held.
pub proof fn lemma_public_request_has_no_authorization(
    version: Seq<char>,
    tokens: TokenModel,
    endpoint: EndpointDescriptor,
    args: Seq<ArgModel>,
    query: Seq<(Seq<char>, Seq<char>)>,
    body: Option<Seq<u64>>,
    now: u64,
)
    requires
        endpoint.auth == RequestType::Public,
    ensures
        prepared(version, tokens, endpoint, args, query, body, now) is Ok,
        forall|i: int|
            #![auto]
            0 <= i < prepared(version, tokens, endpoint, args, query, body, now)->Ok_0.headers.len()
                ==> prepared(version, tokens, endpoint, args, query, body, now)->Ok_0.headers[i].0
                != "Authorization"@,
{
    reveal_strlit("Authorization");
    reveal_strlit("Content-Type");
    assert("Content-Type"@.len() != "Authorization"@.len());
}

/// An authenticated call with a valid access token carries it as a bearer
/// token in the `Authorization` header, which comes first.
pub proof fn lemma_authenticated_request_carries_token(
    version: Seq<char>,
    tokens: TokenModel,
    endpoint: EndpointDescriptor,
    args: Seq<ArgModel>,
    query: Seq<(Seq<char>, Seq<char>)>,
    body: Option<Seq<u64>>,
    now: u64,
)
    requires
        endpoint.auth == RequestType::Authenticated,
        tokens.valid_at(now),
    ensures
        prepared(version, tokens, endpoint, args, query, body, now) is Ok,
        prepared(version, tokens, endpoint, args, query, body, now)->Ok_0.headers[0] == (
            "Authorization"@,
            "Bearer "@ + tokens.access_token->0,
        ),
{
}

} // verus!
