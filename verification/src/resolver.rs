//! URL resolution: parse the caller's input, pick the protocol, normalize
//! the request, and drive the fallback policy — retry an unparsable input
//! with a `gemini://` prefix, and turn to the fixed search host when parsing
//! or a Gemini fetch fails.

use vstd::prelude::*;
use vstd::string::StrSliceExecFns;
use vstd::string::StringExecFns;

use crate::gemini::StatusClass;
use crate::gemini::classify;
use crate::gemini::failure_text;
use crate::gemini::join_sp;
use crate::gemini::parse_gemini_response;
use crate::gemini::resp_body;
use crate::gemini::resp_header;
use crate::gemini::tokens;
use crate::text::contains_char;
use crate::text::decoded;
use crate::text::ends_with_str;
use crate::text::lossy_decode;
use crate::text::starts_with_str;
use crate::text::str_eq;

verus! {

/// The components of a parsed absolute URL, as plain values.
pub struct UrlParts {
    pub scheme: String,
    pub host: Option<String>,
    pub port: Option<u16>,
    pub path: String,
    pub username: String,
}

impl UrlParts {
    /// The host component as a sequence of characters, if any.
    pub open spec fn host_view(&self) -> Option<Seq<char>> {
        match self.host {
            Option::Some(h) => Option::Some(h@),
            Option::None => Option::None,
        }
    }
}

/// Whether the string parses as an absolute URL.
pub uninterp spec fn url_parse_ok(s: Seq<char>) -> bool;

/// The scheme of the parsed URL.
pub uninterp spec fn url_scheme(s: Seq<char>) -> Seq<char>;

/// The host of the parsed URL, if it has one.
pub uninterp spec fn url_host(s: Seq<char>) -> Option<Seq<char>>;

/// The explicit port of the parsed URL, if it names one.
pub uninterp spec fn url_port(s: Seq<char>) -> Option<u16>;

/// The path of the parsed URL.
pub uninterp spec fn url_path(s: Seq<char>) -> Seq<char>;

/// The user-info name of the parsed URL, empty when it has none.
pub uninterp spec fn url_username(s: Seq<char>) -> Seq<char>;

/// Relies on url::Url::parse and the accessors Url::scheme, Url::host_str,
/// Url::port, Url::path and Url::username: whether a string parses as an
/// absolute URL, and each component of the parse, are functions of the
/// string alone.
#[verifier::external_body]
fn parse_url(s: &str) -> (r: Option<UrlParts>)
    ensures
        r is Some <==> url_parse_ok(s@),
        r matches Option::Some(p) ==> {
            &&& p.scheme@ == url_scheme(s@)
            &&& p.host_view() == url_host(s@)
            &&& p.port == url_port(s@)
            &&& p.path@ == url_path(s@)
            &&& p.username@ == url_username(s@)
        },
{
    match url::Url::parse(s) {
        Ok(u) => Some(UrlParts {
            scheme: u.scheme().to_string(),
            host: u.host_str().map(|h| h.to_string()),
            port: u.port(),
            path: u.path().to_string(),
            username: u.username().to_string(),
        }),
        Err(_) => None,
    }
}

/// The protocol a request goes out on.
pub enum Protocol {
    Gemini,
    Gopher,
    Finger,
}

/// One wire request: where to connect, and the single line that is sent —
/// the full request URL for Gemini, the selector for Gopher, the username
/// for Finger.
pub struct FetchRequest {
    pub protocol: Protocol,
    pub host: String,
    pub port: u16,
    pub payload: String,
}

impl FetchRequest {
    /// The exact line this request puts on the wire.
    pub fn request_line(&self) -> (r: String)
        ensures
            r@ == self.payload@ + "\r\n"@,
    {
        let mut s = self.payload.clone();
        s.append("\r\n");
        s
    }
}

/// What happens when a pending fetch fails: report it against a context
/// URL, report the whole navigation as an invalid URL, or retry once via
/// the search host and only then report.
pub enum FailurePolicy {
    Report { context: String },
    InvalidUrl,
    SearchThenReport { query: String, context: String },
}

/// A pending fetch together with its failure policy.
pub struct NavStep {
    pub request: FetchRequest,
    pub on_failure: FailurePolicy,
}

/// Where a navigation stands: a fetch to perform, or a final outcome.
pub enum NavState {
    Fetching(NavStep),
    Finished(Result<String, String>),
}

/// The request URL sent to the fixed fallback search host for a query.
pub open spec fn search_payload(q: Seq<char>) -> Seq<char> {
    "gemini://kennedy.gemi.dev/search?"@ + q
}

/// Whether a request is the fallback search for the given query.
pub open spec fn is_search_request(r: FetchRequest, q: Seq<char>) -> bool {
    &&& r.protocol is Gemini
    &&& r.host@ == "kennedy.gemi.dev"@
    &&& r.port == 1965
    &&& r.payload@ == search_payload(q)
}

/// The input with a `gemini://` prefix, added unless already present.
pub open spec fn with_gemini_prefix(input: Seq<char>) -> Seq<char> {
    if "gemini://"@.is_prefix_of(input) {
        input
    } else {
        "gemini://"@ + input
    }
}

/// The normalized Gemini request URL: the prefixed input, with a trailing
/// slash added when the URL has no path left after the host.
pub open spec fn normalized_gemini_url(input: Seq<char>, host: Seq<char>) -> Seq<char> {
    let u = with_gemini_prefix(input);
    if !u.contains('/') || host.is_suffix_of(u) {
        u + "/"@
    } else {
        u
    }
}

/// The name a Finger request asks about: the explicit user-info when there
/// is one, else the path with a single leading slash stripped.
pub open spec fn finger_query(username: Seq<char>, path: Seq<char>) -> Seq<char> {
    if username.len() == 0 {
        if path.len() > 0 && path[0] == '/' {
            path.skip(1)
        } else {
            path
        }
    } else {
        username
    }
}

/// A port with its scheme's default filled in.
pub open spec fn port_or(p: Option<u16>, d: u16) -> u16 {
    match p {
        Option::Some(x) => x,
        Option::None => d,
    }
}

/// Whether the navigation has finished with the given error text.
pub open spec fn finished_err(s: NavState, m: Seq<char>) -> bool {
    s matches NavState::Finished(r) && r matches Result::Err(e) && e@ == m
}

/// The step a Gemini URL dispatches to: the normalized URL fetched from its
/// host, with one search retry on failure.
pub open spec fn gemini_step_ok(st: NavStep, input: Seq<char>, h: Seq<char>, port: Option<u16>) -> bool {
    &&& st.request.protocol is Gemini
    &&& st.request.host@ == h
    &&& st.request.port == port_or(port, 1965)
    &&& st.request.payload@ == normalized_gemini_url(input, h)
    &&& st.on_failure matches FailurePolicy::SearchThenReport { query, context } && query@ == input
        && context@ == normalized_gemini_url(input, h)
}

/// The step a Gopher URL dispatches to: the path fetched as selector, with
/// no retry.
pub open spec fn gopher_step_ok(st: NavStep, input: Seq<char>, h: Seq<char>, port: Option<u16>, path: Seq<char>) -> bool {
    &&& st.request.protocol is Gopher
    &&& st.request.host@ == h
    &&& st.request.port == port_or(port, 70)
    &&& st.request.payload@ == path
    &&& st.on_failure matches FailurePolicy::Report { context } && context@ == input
}

/// The step a Finger URL dispatches to: the derived username fetched, with
/// no retry.
pub open spec fn finger_step_ok(st: NavStep, input: Seq<char>, h: Seq<char>, port: Option<u16>, path: Seq<char>, user: Seq<char>) -> bool {
    &&& st.request.protocol is Finger
    &&& st.request.host@ == h
    &&& st.request.port == port_or(port, 79)
    &&& st.request.payload@ == finger_query(user, path)
    &&& st.on_failure matches FailurePolicy::Report { context } && context@ == input
}

/// What dispatching a parsed URL yields, from its components: a fetch step
/// for the three known schemes with a host, and a final error otherwise.
pub open spec fn dispatch_post(
    s: NavState,
    input: Seq<char>,
    scheme: Seq<char>,
    host: Option<Seq<char>>,
    port: Option<u16>,
    path: Seq<char>,
    user: Seq<char>,
) -> bool {
    if scheme == "gemini"@ {
        match host {
            Option::None => finished_err(s, "Invalid host in URL"@),
            Option::Some(h) => s matches NavState::Fetching(st) && gemini_step_ok(
                st,
                input,
                h,
                port,
            ),
        }
    } else if scheme == "gopher"@ {
        match host {
            Option::None => finished_err(s, "Invalid host in URL"@),
            Option::Some(h) => s matches NavState::Fetching(st) && gopher_step_ok(
                st,
                input,
                h,
                port,
                path,
            ),
        }
    } else if scheme == "finger"@ {
        match host {
            Option::None => finished_err(s, "Invalid host in URL"@),
            Option::Some(h) => s matches NavState::Fetching(st) && finger_step_ok(
                st,
                input,
                h,
                port,
                path,
                user,
            ),
        }
    } else {
        finished_err(s, "Unsupported URL scheme. Only gemini, gopher, and finger are supported."@)
    }
}

/// The normalized Gemini request URL, computed.
pub fn normalize_gemini_url(input: &String, host: &str) -> (r: String)
    ensures
        r@ == normalized_gemini_url(input@, host@),
{
    let mut u: String = if starts_with_str(input.as_str(), "gemini://") {
        input.clone()
    } else {
        let mut p: String = "gemini://".to_owned();
        p.append(input.as_str());
        p
    };
    proof {
        assert(u@ == with_gemini_prefix(input@));
    }
    let has_slash = contains_char(u.as_str(), '/');
    let at_host_end = ends_with_str(u.as_str(), host);
    if !has_slash || at_host_end {
        u.append("/");
    }
    u
}

/// The Finger username derived from a parsed URL, computed.
fn finger_username(parts: &UrlParts) -> (r: String)
    ensures
        r@ == finger_query(parts.username@, parts.path@),
{
    if parts.username.as_str().unicode_len() == 0 {
        let p = parts.path.as_str();
        let n = p.unicode_len();
        if n > 0 && p.get_char(0) == '/' {
            let rest = p.substring_char(1, n);
            proof {
                assert(rest@ =~= parts.path@.skip(1));
            }
            rest.to_owned()
        } else {
            parts.path.clone()
        }
    } else {
        parts.username.clone()
    }
}

/// The one fallback request: a Gemini search for the query against the
/// fixed search host.
pub fn search_request(query: &String) -> (r: FetchRequest)
    ensures
        is_search_request(r, query@),
{
    let mut payload: String = "gemini://kennedy.gemi.dev/search?".to_owned();
    payload.append(query.as_str());
    FetchRequest {
        protocol: Protocol::Gemini,
        host: "kennedy.gemi.dev".to_owned(),
        port: 1965,
        payload,
    }
}

/// Dispatch a parsed URL: pick the protocol from the scheme, fill in the
/// default port, and shape the request and its failure policy.
pub fn dispatch(input: &String, parts: &UrlParts) -> (s: NavState)
    ensures
        dispatch_post(
            s,
            input@,
            parts.scheme@,
            parts.host_view(),
            parts.port,
            parts.path@,
            parts.username@,
        ),
{
    if str_eq(parts.scheme.as_str(), "gemini") {
        match &parts.host {
            Option::None => NavState::Finished(Result::Err("Invalid host in URL".to_owned())),
            Option::Some(h) => {
                let port = match parts.port {
                    Option::Some(x) => x,
                    Option::None => 1965,
                };
                let request_url = normalize_gemini_url(input, h.as_str());
                NavState::Fetching(
                    NavStep {
                        request: FetchRequest {
                            protocol: Protocol::Gemini,
                            host: h.clone(),
                            port,
                            payload: request_url.clone(),
                        },
                        on_failure: FailurePolicy::SearchThenReport {
                            query: input.clone(),
                            context: request_url,
                        },
                    },
                )
            },
        }
    } else if str_eq(parts.scheme.as_str(), "gopher") {
        match &parts.host {
            Option::None => NavState::Finished(Result::Err("Invalid host in URL".to_owned())),
            Option::Some(h) => {
                let port = match parts.port {
                    Option::Some(x) => x,
                    Option::None => 70,
                };
                NavState::Fetching(
                    NavStep {
                        request: FetchRequest {
                            protocol: Protocol::Gopher,
                            host: h.clone(),
                            port,
                            payload: parts.path.clone(),
                        },
                        on_failure: FailurePolicy::Report { context: input.clone() },
                    },
                )
            },
        }
    } else if str_eq(parts.scheme.as_str(), "finger") {
        match &parts.host {
            Option::None => NavState::Finished(Result::Err("Invalid host in URL".to_owned())),
            Option::Some(h) => {
                let port = match parts.port {
                    Option::Some(x) => x,
                    Option::None => 79,
                };
                let user = finger_username(parts);
                NavState::Fetching(
                    NavStep {
                        request: FetchRequest {
                            protocol: Protocol::Finger,
                            host: h.clone(),
                            port,
                            payload: user,
                        },
                        on_failure: FailurePolicy::Report { context: input.clone() },
                    },
                )
            },
        }
    } else {
        NavState::Finished(
            Result::Err(
                "Unsupported URL scheme. Only gemini, gopher, and finger are supported.".to_owned(),
            ),
        )
    }
}

/// What starting a navigation yields: the input's own parse dispatched when
/// it succeeds, the `gemini://`-prefixed parse dispatched when only that
/// succeeds, and the search fallback — whose failure is final — when both
/// fail.
pub open spec fn start_post(s: NavState, input: Seq<char>) -> bool {
    if url_parse_ok(input) {
        dispatch_post(
            s,
            input,
            url_scheme(input),
            url_host(input),
            url_port(input),
            url_path(input),
            url_username(input),
        )
    } else if url_parse_ok("gemini://"@ + input) {
        dispatch_post(
            s,
            input,
            url_scheme("gemini://"@ + input),
            url_host("gemini://"@ + input),
            url_port("gemini://"@ + input),
            url_path("gemini://"@ + input),
            url_username("gemini://"@ + input),
        )
    } else {
        s matches NavState::Fetching(st) && is_search_request(st.request, input)
            && st.on_failure is InvalidUrl
    }
}

/// Begin resolving an input: parse it as given, retry the parse with a
/// `gemini://` prefix, and fall back to a search of the whole input when
/// both parses fail.
pub fn start_navigation(input: &String) -> (s: NavState)
    ensures
        start_post(s, input@),
{
    match parse_url(input.as_str()) {
        Option::Some(parts) => dispatch(input, &parts),
        Option::None => {
            let mut prefixed: String = "gemini://".to_owned();
            prefixed.append(input.as_str());
            match parse_url(prefixed.as_str()) {
                Option::Some(parts) => dispatch(input, &parts),
                Option::None => NavState::Fetching(
                    NavStep {
                        request: search_request(input),
                        on_failure: FailurePolicy::InvalidUrl,
                    },
                ),
            }
        },
    }
}

/// What applying a failure policy to an error text yields.
pub open spec fn failure_step_post(s: NavState, policy: FailurePolicy, err: Seq<char>) -> bool {
    match policy {
        FailurePolicy::Report { context } => finished_err(
            s,
            "Failed to fetch "@ + context@ + ": "@ + err,
        ),
        FailurePolicy::InvalidUrl => finished_err(s, "Invalid URL format"@),
        FailurePolicy::SearchThenReport { query, context } => s matches NavState::Fetching(st)
            && is_search_request(st.request, query@) && (st.on_failure matches
        FailurePolicy::Report { context: c } && c@ == context@),
    }
}

/// Apply a failure policy to an error text.
fn fail_step(policy: FailurePolicy, err: String) -> (s: NavState)
    ensures
        failure_step_post(s, policy, err@),
{
    match policy {
        FailurePolicy::Report { context } => {
            let mut m: String = "Failed to fetch ".to_owned();
            m.append(context.as_str());
            m.append(": ");
            m.append(err.as_str());
            NavState::Finished(Result::Err(m))
        },
        FailurePolicy::InvalidUrl => NavState::Finished(
            Result::Err("Invalid URL format".to_owned()),
        ),
        FailurePolicy::SearchThenReport { query, context } => NavState::Fetching(
            NavStep {
                request: search_request(&query),
                on_failure: FailurePolicy::Report { context },
            },
        ),
    }
}

/// What a Gemini response does to the navigation: content finishes it, and
/// a protocol failure goes through the step's failure policy.
pub open spec fn gemini_outcome_post(s: NavState, step: NavStep, bytes: Seq<u8>) -> bool {
    let ts = tokens(resp_header(bytes));
    if ts.len() < 2 {
        failure_step_post(s, step.on_failure, "Invalid status line format"@)
    } else {
        match classify(ts[0]) {
            StatusClass::Success => s matches NavState::Finished(r) && r matches Result::Ok(c)
                && c@ == decoded(resp_body(bytes)),
            c => failure_step_post(
                s,
                step.on_failure,
                failure_text(c, decoded(ts[0]), decoded(join_sp(ts.skip(1)))),
            ),
        }
    }
}

/// What feeding a fetch outcome to a step yields: Gemini responses are
/// parsed, Gopher and Finger responses are content as they stand, and a
/// transport error goes through the failure policy.
pub open spec fn on_fetch_post(s: NavState, step: NavStep, outcome: Result<Vec<u8>, String>) -> bool {
    match outcome {
        Result::Ok(bytes) => {
            if step.request.protocol is Gemini {
                gemini_outcome_post(s, step, bytes@)
            } else {
                s matches NavState::Finished(r) && r matches Result::Ok(c) && c@ == decoded(
                    bytes@,
                )
            }
        },
        Result::Err(e) => failure_step_post(s, step.on_failure, e@),
    }
}

/// Feed the outcome of a step's fetch — the raw bytes read until the peer
/// closed, or a transport error — back into the navigation.
pub fn on_fetch_outcome(step: NavStep, outcome: Result<Vec<u8>, String>) -> (s: NavState)
    ensures
        on_fetch_post(s, step, outcome),
{
    match outcome {
        Result::Ok(bytes) => match step.request.protocol {
            Protocol::Gemini => match parse_gemini_response(bytes.as_slice()) {
                Result::Ok(g) => NavState::Finished(Result::Ok(g.body)),
                Result::Err(m) => fail_step(step.on_failure, m),
            },
            Protocol::Gopher => NavState::Finished(Result::Ok(lossy_decode(bytes.as_slice()))),
            Protocol::Finger => NavState::Finished(Result::Ok(lossy_decode(bytes.as_slice()))),
        },
        Result::Err(e) => fail_step(step.on_failure, e),
    }
}

/// An input that does not parse as given is retried with the `gemini://`
/// prefix, and is dispatched by that prefixed parse — the search fallback is
/// reached only when the retry fails too.
pub proof fn lemma_prefixed_parse_before_search(s: NavState, input: Seq<char>)
    requires
        start_post(s, input),
        !url_parse_ok(input),
        url_parse_ok("gemini://"@ + input),
    ensures
        dispatch_post(
            s,
            input,
            url_scheme("gemini://"@ + input),
            url_host("gemini://"@ + input),
            url_port("gemini://"@ + input),
            url_path("gemini://"@ + input),
            url_username("gemini://"@ + input),
        ),
{
}

/// When neither the input nor its `gemini://`-prefixed form parses, the one
/// step taken is the Gemini search for the whole input against the fallback
/// host, and its failure ends the navigation as an invalid URL.
pub proof fn lemma_search_fallback(s: NavState, input: Seq<char>)
    requires
        start_post(s, input),
        !url_parse_ok(input),
        !url_parse_ok("gemini://"@ + input),
    ensures
        s matches NavState::Fetching(st) && is_search_request(st.request, input)
            && st.on_failure is InvalidUrl,
{
}

/// A failing fetch whose policy is not the Gemini search retry ends the
/// navigation with an error: Gopher and Finger failures, and the failure of
/// any fallback, are terminal.
pub proof fn lemma_plain_failure_is_final(s: NavState, policy: FailurePolicy, err: Seq<char>)
    requires
        failure_step_post(s, policy, err),
        !(policy is SearchThenReport),
    ensures
        s matches NavState::Finished(r) && r is Err,
{
}

/// The search retry happens at most once: the step it schedules reports its
/// own failure instead of retrying again.
pub proof fn lemma_at_most_one_retry(s: NavState, policy: FailurePolicy, err: Seq<char>)
    requires
        failure_step_post(s, policy, err),
        policy is SearchThenReport,
    ensures
        s matches NavState::Fetching(st) && st.on_failure is Report,
{
}

/// A URL that names no port is fetched on its scheme's default: 1965 for
/// Gemini, 70 for Gopher, 79 for Finger.
pub proof fn lemma_default_ports(
    s: NavState,
    input: Seq<char>,
    scheme: Seq<char>,
    host: Seq<char>,
    path: Seq<char>,
    user: Seq<char>,
)
    requires
        dispatch_post(s, input, scheme, Option::Some(host), Option::None, path, user),
    ensures
        scheme == "gemini"@ ==> (s matches NavState::Fetching(st) && st.request.port == 1965),
        scheme == "gopher"@ ==> (s matches NavState::Fetching(st) && st.request.port == 70),
        scheme == "finger"@ ==> (s matches NavState::Fetching(st) && st.request.port == 79),
{
    reveal_strlit("gemini");
    reveal_strlit("gopher");
    reveal_strlit("finger");
    assert("gemini"@ =~= "gemini"@);
    assert("gemini"@[1] == 'e' && "gopher"@[1] == 'o' && "finger"@[1] == 'i');
}

} // verus!
