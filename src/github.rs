use vstd::prelude::*;
use crate::error::GHAPIError;
use reqwest::header::{HeaderMap, HeaderValue};
use reqwest::Client;

verus! {

#[verifier::external_type_specification]
#[verifier::external_body]
pub struct ExClient(Client);

#[verifier::external_type_specification]
#[verifier::external_body]
pub struct ExReqwestError(reqwest::Error);

#[verifier::external_type_specification]
#[verifier::external_body]
pub struct ExHeaderValue(HeaderValue);

#[verifier::external_type_specification]
#[verifier::external_body]
#[verifier::reject_recursive_types(T)]
pub struct ExHeaderMap<T>(HeaderMap<T>);

/// The headers that a header map holds: each name with the text of its value.
pub uninterp spec fn header_entries(m: HeaderMap<HeaderValue>) -> Map<Seq<char>, Seq<char>>;

/// May `c` stand in an HTTP header value: a tab, or a character of code 32 or more
/// other than DEL. A non-ASCII character is encoded in UTF-8 bytes of 128 or more,
/// which header values accept.
pub open spec fn header_char_ok(c: char) -> bool {
    (c as u32 >= 32 && c as u32 != 127) || c == '\t'
}

/// May `s` be the text of an HTTP header value.
pub open spec fn header_text_ok(s: Seq<char>) -> bool {
    forall|i: int| 0 <= i < s.len() ==> header_char_ok(#[trigger] s[i])
}

/// Relies on `HeaderMap::new`: a map with no headers.
#[verifier::external_body]
fn empty_headers() -> (r: HeaderMap<HeaderValue>)
    ensures
        header_entries(r) =~= Map::empty(),
{
    HeaderMap::new()
}

/// Relies on `HeaderValue::from_str` and `HeaderMap::insert` with a `&'static str` key.
/// `from_str` accepts the text exactly when each of its bytes is a tab, or is at least
/// 32 and not 127; then `insert` sets the header, replacing any earlier value, and
/// `true` comes back. Otherwise the map is left as it was. The key goes through
/// `HeaderName::from_static`, which panics on a name that is not a lower-case token;
/// the three standard names allowed here are. `insert` also panics when the map
/// cannot grow, far beyond the few entries allowed here.
#[verifier::external_body]
fn insert_header(map: &mut HeaderMap<HeaderValue>, name: &'static str, value: &str) -> (r: bool)
    requires
        name@ == "authorization"@ || name@ == "user-agent"@ || name@ == "accept"@,
        header_entries(*old(map)).dom().finite(),
        header_entries(*old(map)).len() <= 2,
    ensures
        r <==> header_text_ok(value@),
        r ==> header_entries(*final(map)) == header_entries(*old(map)).insert(name@, value@),
        !r ==> header_entries(*final(map)) == header_entries(*old(map)),
{
    match HeaderValue::from_str(value) {
        Ok(v) => {
            map.insert(name, v);
            true
        },
        Err(_) => false,
    }
}

/// Relies on `Client::builder`, `ClientBuilder::default_headers` and
/// `ClientBuilder::build`: a client that sends `headers` with every request, or the
/// builder's error (for instance when no TLS backend can be set up). The handed
/// headers go into the builder's own map, which panics only when it cannot grow, far
/// beyond the few entries allowed here.
#[verifier::external_body]
fn build_client(headers: HeaderMap<HeaderValue>) -> (r: Result<Client, reqwest::Error>)
    requires
        header_entries(headers).dom().finite(),
        header_entries(headers).len() <= 3,
{
    Client::builder().default_headers(headers).build()
}

/// The base URL used when none is given.
pub open spec fn default_base_url() -> Seq<char> {
    "https://api.github.com"@
}

/// The base URL that a client made with `base_url` talks to.
pub open spec fn chosen_base_url(base_url: Option<String>) -> Seq<char> {
    match base_url {
        Some(u) => u@,
        None => default_base_url(),
    }
}

/// The value of the authorization header for `api_key`.
pub open spec fn authorization_text(api_key: Seq<char>) -> Seq<char> {
    "token "@ + api_key
}

/// The address of a repository's details under `base`, for `path` of the form `owner/repo`.
pub open spec fn repository_url_of(base: Seq<char>, path: Seq<char>) -> Seq<char> {
    base + "/repos/"@ + path
}

/// Picks the given base URL, or the public API's when none is given.
pub fn base_url_or_default(base_url: Option<String>) -> (r: String)
    ensures
        r@ == chosen_base_url(base_url),
{
    match base_url {
        Some(u) => u,
        None => "https://api.github.com".to_owned(),
    }
}

/// The authorization header's text for `api_key`.
pub fn authorization_value(api_key: &str) -> (r: String)
    ensures
        r@ == authorization_text(api_key@),
{
    let mut r = "token ".to_owned();
    r.append(api_key);
    r
}

proof fn lemma_authorization_ok(api_key: Seq<char>)
    ensures
        header_text_ok(authorization_text(api_key)) <==> header_text_ok(api_key),
{
    reveal_strlit("token ");
    let a = authorization_text(api_key);
    assert(a.len() == 6 + api_key.len());
    if header_text_ok(api_key) {
        assert forall|i: int| 0 <= i < a.len() implies header_char_ok(#[trigger] a[i]) by {
            if i >= 6 {
                assert(a[i] == api_key[i - 6]);
            } else {
                assert(i == 0 || i == 1 || i == 2 || i == 3 || i == 4 || i == 5);
            }
        }
    }
    if header_text_ok(a) {
        assert forall|j: int| 0 <= j < api_key.len() implies header_char_ok(
            #[trigger] api_key[j],
        ) by {
            assert(a[j + 6] == api_key[j]);
        }
    }
}

/// Builds the headers sent with every request: `authorization: token <api_key>`,
/// `user-agent: gh-api-service` and `accept: application/json`.
/// Fails exactly when the key holds a character that a header value refuses.
pub fn default_headers(api_key: &str) -> (r: Result<HeaderMap<HeaderValue>, GHAPIError>)
    ensures
        r is Ok <==> header_text_ok(api_key@),
        r is Err ==> r->Err_0 == GHAPIError::ClientCreationFailed,
        r is Ok ==> header_entries(r->Ok_0) == map![
            "authorization"@ => authorization_text(api_key@),
            "user-agent"@ => "gh-api-service"@,
            "accept"@ => "application/json"@,
        ],
{
    let auth = authorization_value(api_key);
    proof {
        lemma_authorization_ok(api_key@);
        reveal_strlit("gh-api-service");
        reveal_strlit("application/json");
        reveal_strlit("authorization");
        reveal_strlit("user-agent");
        reveal_strlit("accept");
    }
    let mut hm = empty_headers();
    if !insert_header(&mut hm, "authorization", auth.as_str()) {
        return Err(GHAPIError::ClientCreationFailed);
    }
    let agent = "gh-api-service";
    assert forall|i: int| 0 <= i < agent@.len() implies header_char_ok(#[trigger] agent@[i]) by {
        assert(i == 0 || i == 1 || i == 2 || i == 3 || i == 4 || i == 5 || i == 6 || i == 7
            || i == 8 || i == 9 || i == 10 || i == 11 || i == 12 || i == 13);
    }
    if !insert_header(&mut hm, "user-agent", agent) {
        return Err(GHAPIError::ClientCreationFailed);
    }
    let accept = "application/json";
    assert forall|i: int| 0 <= i < accept@.len() implies header_char_ok(
        #[trigger] accept@[i],
    ) by {
        assert(i == 0 || i == 1 || i == 2 || i == 3 || i == 4 || i == 5 || i == 6 || i == 7
            || i == 8 || i == 9 || i == 10 || i == 11 || i == 12 || i == 13 || i == 14 || i
            == 15);
    }
    if !insert_header(&mut hm, "accept", accept) {
        return Err(GHAPIError::ClientCreationFailed);
    }
    assert(header_entries(hm) =~= map![
        "authorization"@ => authorization_text(api_key@),
        "user-agent"@ => "gh-api-service"@,
        "accept"@ => "application/json"@,
    ]);
    Ok(hm)
}

/// A repository's public metadata, as the details endpoint returns it.
#[derive(Debug, Clone)]
pub struct Repository {
    /// The `owner/repo` name.
    pub full_name: String,
    /// The description, where the repository has one.
    pub description: Option<String>,
    /// The repository's web page.
    pub html_url: String,
}

/// A client of the repository API: an HTTP client with the authorization, user-agent
/// and accept headers set, and the base URL that requests go to. Never changed once
/// made.
pub struct GithubAPI {
    base_url: String,
    client: Client,
    headers: Ghost<Map<Seq<char>, Seq<char>>>,
}

impl GithubAPI {
    /// The base URL that this client sends its requests to.
    pub closed spec fn spec_base_url(&self) -> Seq<char> {
        self.base_url@
    }

    /// The default headers that the HTTP client was built with, each name with the
    /// text of its value.
    pub closed spec fn spec_headers(&self) -> Map<Seq<char>, Seq<char>> {
        self.headers@
    }

    /// The HTTP client that this client sends its requests with.
    pub closed spec fn spec_client(&self) -> Client {
        self.client
    }

    /// Makes a client that authenticates with `api_key` and talks to `base_url`, or to
    /// the public API when none is given. Fails with `ClientCreationFailed` when the
    /// key cannot stand in a header, or when the HTTP client cannot be built.
    pub fn new(api_key: String, base_url: Option<String>) -> (r: Result<GithubAPI, GHAPIError>)
        ensures
            !header_text_ok(api_key@) ==> r is Err,
            r is Err ==> r->Err_0 == GHAPIError::ClientCreationFailed,
            r is Ok ==> header_text_ok(api_key@) && r->Ok_0.spec_base_url() == chosen_base_url(
                base_url,
            ),
            r is Ok ==> r->Ok_0.spec_headers() == map![
                "authorization"@ => authorization_text(api_key@),
                "user-agent"@ => "gh-api-service"@,
                "accept"@ => "application/json"@,
            ],
    {
        let headers = match default_headers(api_key.as_str()) {
            Ok(h) => h,
            Err(e) => {
                return Err(e);
            },
        };
        let entries: Ghost<Map<Seq<char>, Seq<char>>> = Ghost(header_entries(headers));
        proof {
            reveal_strlit("authorization");
            reveal_strlit("user-agent");
            reveal_strlit("accept");
            assert(entries@.dom() =~= set!["authorization"@, "user-agent"@, "accept"@]);
            assert(entries@.dom().len() <= 3);
        }
        let client = match build_client(headers) {
            Ok(c) => c,
            Err(_) => {
                return Err(GHAPIError::ClientCreationFailed);
            },
        };
        let url = base_url_or_default(base_url);
        Ok(GithubAPI { client, base_url: url, headers: entries })
    }

    /// The base URL that this client sends its requests to.
    pub fn base_url(&self) -> (r: &String)
        ensures
            r@ == self.spec_base_url(),
    {
        &self.base_url
    }

    /// The address of the details of the repository `path` (`owner/repo`).
    pub fn repository_url(&self, path: &str) -> (r: String)
        ensures
            r@ == repository_url_of(self.spec_base_url(), path@),
    {
        let mut r = self.base_url.clone();
        r.append("/repos/");
        r.append(path);
        r
    }

    /// The HTTP client, which sends the default headers with every request.
    pub fn client(&self) -> (r: &Client)
        ensures
            *r == self.spec_client(),
    {
        &self.client
    }
}

/// What happened at one step of fetching a repository's details.
#[derive(Debug)]
pub enum FetchEvent {
    /// The request could not be sent, or no response came.
    SendFailed,
    /// A response came with this status code.
    Responded(u16),
    /// The body of an unsuccessful response was read as text, or could not be read.
    ErrorBody(Option<String>),
    /// The body of a successful response was decoded into a repository, or did not
    /// have the expected shape.
    Parsed(Option<Repository>),
}

/// What to do next while fetching a repository's details.
#[derive(Debug)]
pub enum FetchAction {
    /// Read the whole body of the response as text.
    ReadErrorBody,
    /// Decode the body of the response as a repository.
    ParseRepository,
    /// The fetch is over, with this result.
    Finish(Result<Repository, GHAPIError>),
}

/// Is `status` a success code (200 to 299).
pub open spec fn success_status(status: u16) -> bool {
    200 <= status && status <= 299
}

/// The step that follows `event` in fetching a repository's details.
pub open spec fn fetch_step(event: FetchEvent) -> FetchAction {
    match event {
        FetchEvent::SendFailed => FetchAction::Finish(Err(GHAPIError::RequestFailed)),
        FetchEvent::Responded(status) => if success_status(status) {
            FetchAction::ParseRepository
        } else {
            FetchAction::ReadErrorBody
        },
        FetchEvent::ErrorBody(Some(body)) => FetchAction::Finish(
            Err(GHAPIError::ResponseUnsuccessful(body)),
        ),
        FetchEvent::ErrorBody(None) => FetchAction::Finish(Err(GHAPIError::FailedToDeserialize)),
        FetchEvent::Parsed(Some(repo)) => FetchAction::Finish(Ok(repo)),
        FetchEvent::Parsed(None) => FetchAction::Finish(Err(GHAPIError::FailedToDeserialize)),
    }
}

/// The result of a whole fetch: `status` is the response's code, or `None` when the
/// request failed; `error_body` is what reading an unsuccessful response's body gave,
/// and `parsed` what decoding a successful one gave.
pub open spec fn fetch_result(
    status: Option<u16>,
    error_body: Option<String>,
    parsed: Option<Repository>,
) -> Result<Repository, GHAPIError> {
    match status {
        None => Err(GHAPIError::RequestFailed),
        Some(s) => if success_status(s) {
            match parsed {
                Some(repo) => Ok(repo),
                None => Err(GHAPIError::FailedToDeserialize),
            }
        } else {
            match error_body {
                Some(body) => Err(GHAPIError::ResponseUnsuccessful(body)),
                None => Err(GHAPIError::FailedToDeserialize),
            }
        },
    }
}

/// Whether `status` is a success code.
pub fn is_success_status(status: u16) -> (r: bool)
    ensures
        r == success_status(status),
{
    200 <= status && status <= 299
}

/// Decides the next step of fetching a repository's details from what just happened.
pub fn next_action(event: FetchEvent) -> (r: FetchAction)
    ensures
        r == fetch_step(event),
{
    match event {
        FetchEvent::SendFailed => FetchAction::Finish(Err(GHAPIError::RequestFailed)),
        FetchEvent::Responded(status) => {
            if is_success_status(status) {
                FetchAction::ParseRepository
            } else {
                FetchAction::ReadErrorBody
            }
        },
        FetchEvent::ErrorBody(Some(body)) => FetchAction::Finish(
            Err(GHAPIError::ResponseUnsuccessful(body)),
        ),
        FetchEvent::ErrorBody(None) => FetchAction::Finish(Err(GHAPIError::FailedToDeserialize)),
        FetchEvent::Parsed(Some(repo)) => FetchAction::Finish(Ok(repo)),
        FetchEvent::Parsed(None) => FetchAction::Finish(Err(GHAPIError::FailedToDeserialize)),
    }
}

/// The steps taken one after another end in the result of the whole fetch: a failed
/// send ends it at once; a response's status decides which body is read; what that
/// read gives is the result.
pub proof fn lemma_steps_give_result(
    status: Option<u16>,
    error_body: Option<String>,
    parsed: Option<Repository>,
)
    ensures
        status is None ==> fetch_step(FetchEvent::SendFailed) == FetchAction::Finish(
            fetch_result(status, error_body, parsed),
        ),
        status is Some && success_status(status->0) ==> fetch_step(
            FetchEvent::Responded(status->0),
        ) == FetchAction::ParseRepository && fetch_step(FetchEvent::Parsed(parsed))
            == FetchAction::Finish(fetch_result(status, error_body, parsed)),
        status is Some && !success_status(status->0) ==> fetch_step(
            FetchEvent::Responded(status->0),
        ) == FetchAction::ReadErrorBody && fetch_step(FetchEvent::ErrorBody(error_body))
            == FetchAction::Finish(fetch_result(status, error_body, parsed)),
{
}

/// A successful response whose body decodes to a repository yields that repository,
/// unchanged: its `full_name` is the one the server sent.
pub proof fn lemma_success_returns_repository(status: u16, repo: Repository)
    requires
        success_status(status),
    ensures
        fetch_result(Some(status), None, Some(repo)) == Ok::<Repository, GHAPIError>(repo),
{
}

/// A response with a status outside 200..=299 fails with `ResponseUnsuccessful`,
/// carrying exactly the body the server sent, whatever a decode would have given.
pub proof fn lemma_unsuccessful_keeps_body(status: u16, body: String, parsed: Option<Repository>)
    requires
        !success_status(status),
    ensures
        fetch_result(Some(status), Some(body), parsed) == Err::<Repository, GHAPIError>(
            GHAPIError::ResponseUnsuccessful(body),
        ),
{
}

/// A successful response whose body does not decode to a repository (a required
/// field missing, a field of the wrong type) fails with `FailedToDeserialize`.
pub proof fn lemma_malformed_body_fails(status: u16, error_body: Option<String>)
    requires
        success_status(status),
    ensures
        fetch_result(Some(status), error_body, None) == Err::<Repository, GHAPIError>(
            GHAPIError::FailedToDeserialize,
        ),
{
}

/// A key with one character that a header value refuses is not header text as a
/// whole; by their contracts `default_headers` and `GithubAPI::new` then fail with
/// `ClientCreationFailed`.
pub proof fn lemma_bad_key_refused(api_key: Seq<char>, i: int)
    requires
        0 <= i < api_key.len(),
        !header_char_ok(api_key[i]),
    ensures
        !header_text_ok(api_key),
{
}

/// Two fetches that meet equal responses take the same steps and end in equal
/// results. The steps and the result are functions of the responses alone, which
/// `next_action`'s exact contract states of each call.
pub proof fn lemma_fetch_repeatable(
    first: (Option<u16>, Option<String>, Option<Repository>),
    second: (Option<u16>, Option<String>, Option<Repository>),
)
    requires
        first == second,
    ensures
        first.0 is Some ==> fetch_step(FetchEvent::Responded(first.0->0)) == fetch_step(
            FetchEvent::Responded(second.0->0),
        ),
        fetch_step(FetchEvent::ErrorBody(first.1)) == fetch_step(FetchEvent::ErrorBody(second.1)),
        fetch_step(FetchEvent::Parsed(first.2)) == fetch_step(FetchEvent::Parsed(second.2)),
        fetch_result(first.0, first.1, first.2) == fetch_result(second.0, second.1, second.2),
{
}

} // verus!
