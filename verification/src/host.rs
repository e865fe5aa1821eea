//! The host's decisions around running components: which requests the HTTP
//! proxy admits and how it answers them, where component code is fetched
//! from, and how long the host lets work go on.
use vstd::prelude::*;

use crate::engine::wasi::http::fields::{ascii_lower, is_field_name, Fields};
use crate::engine::wasi::http::ErrorCode;

verus! {

/// Why the HTTP proxy answers a request itself, without a workload.
#[derive(Clone, Copy, Debug, PartialEq, Eq, Structural)]
pub enum ProxyRejection {
    /// The request names no workload.
    MissingId,
    /// The workload's name is not visible ASCII.
    InvalidId,
    /// As many instances run as may.
    NoPermits,
    /// The instance permits are gone.
    PermitsClosed,
    /// The engine's queue is full.
    EngineFull,
    /// The engine is gone.
    EngineExited,
}

/// The status code with which a rejection is answered.
pub open spec fn rejection_status(r: ProxyRejection) -> u16 {
    match r {
        ProxyRejection::MissingId => 400,
        ProxyRejection::InvalidId => 400,
        ProxyRejection::NoPermits => 503,
        ProxyRejection::PermitsClosed => 500,
        ProxyRejection::EngineFull => 503,
        ProxyRejection::EngineExited => 500,
    }
}

impl ProxyRejection {
    /// The status code of the answer.
    pub fn status(&self) -> (r: u16)
        ensures
            r == rejection_status(*self),
    {
        match self {
            ProxyRejection::MissingId => 400,
            ProxyRejection::InvalidId => 400,
            ProxyRejection::NoPermits => 503,
            ProxyRejection::PermitsClosed => 500,
            ProxyRejection::EngineFull => 503,
            ProxyRejection::EngineExited => 500,
        }
    }

    /// The body of the answer.
    pub fn message(&self) -> (r: String)
        ensures
            *self == ProxyRejection::MissingId ==> r@ == "`X-Wasmx-Id` header missing"@,
            *self == ProxyRejection::InvalidId ==> r@
                == "`X-Wasmx-Id` header value is not valid UTF-8: failed to convert header to a str"@,
            *self == ProxyRejection::NoPermits ==> r@ == "maximum instance count reached"@,
            *self == ProxyRejection::PermitsClosed ==> r@ == "semaphore closed"@,
            *self == ProxyRejection::EngineFull ==> r@ == "engine buffer full"@,
            *self == ProxyRejection::EngineExited ==> r@ == "engine thread exited"@,
    {
        match self {
            ProxyRejection::MissingId => String::from_str("`X-Wasmx-Id` header missing"),
            ProxyRejection::InvalidId => String::from_str(
                "`X-Wasmx-Id` header value is not valid UTF-8: failed to convert header to a str",
            ),
            ProxyRejection::NoPermits => String::from_str("maximum instance count reached"),
            ProxyRejection::PermitsClosed => String::from_str("semaphore closed"),
            ProxyRejection::EngineFull => String::from_str("engine buffer full"),
            ProxyRejection::EngineExited => String::from_str("engine thread exited"),
        }
    }
}

/// Whether every byte of `v` is visible ASCII or a tab.
pub open spec fn is_visible_ascii(v: Seq<u8>) -> bool {
    forall|i: int| 0 <= i < v.len() ==> ((32 <= #[trigger] v[i] && v[i] < 127) || v[i] == 9)
}

/// The workload that a proxied request names in its `X-Wasmx-Id` header:
/// the header must be there, and be visible ASCII.
pub fn workload_id(header: Option<Vec<u8>>) -> (r: Result<Vec<u8>, ProxyRejection>)
    ensures
        header is None ==> r == Err::<Vec<u8>, _>(ProxyRejection::MissingId),
        header matches Some(v) ==> if is_visible_ascii(v@) {
            r matches Ok(n) && n@ == v@
        } else {
            r == Err::<Vec<u8>, _>(ProxyRejection::InvalidId)
        },
{
    let v = match header {
        Some(v) => v,
        None => return Err(ProxyRejection::MissingId),
    };
    if visible_ascii(&v) {
        Ok(v)
    } else {
        Err(ProxyRejection::InvalidId)
    }
}

/// What taking an instance permit gave.
#[derive(Clone, Copy, Debug, PartialEq, Eq, Structural)]
pub enum PermitOutcome {
    Acquired,
    NoPermits,
    Closed,
}

/// Whether a request may go on after asking for an instance permit.
pub fn permit_granted(permit: PermitOutcome) -> (r: Result<(), ProxyRejection>)
    ensures
        permit == PermitOutcome::Acquired ==> r is Ok,
        permit == PermitOutcome::NoPermits ==> r == Err::<(), _>(ProxyRejection::NoPermits),
        permit == PermitOutcome::Closed ==> r == Err::<(), _>(ProxyRejection::PermitsClosed),
{
    match permit {
        PermitOutcome::Acquired => Ok(()),
        PermitOutcome::NoPermits => Err(ProxyRejection::NoPermits),
        PermitOutcome::Closed => Err(ProxyRejection::PermitsClosed),
    }
}

/// What handing an invocation to the engine gave.
#[derive(Clone, Copy, Debug, PartialEq, Eq, Structural)]
pub enum DispatchOutcome {
    Sent,
    Full,
    Closed,
}

/// Whether a request went on to the engine.
pub fn dispatched(outcome: DispatchOutcome) -> (r: Result<(), ProxyRejection>)
    ensures
        outcome == DispatchOutcome::Sent ==> r is Ok,
        outcome == DispatchOutcome::Full ==> r == Err::<(), _>(ProxyRejection::EngineFull),
        outcome == DispatchOutcome::Closed ==> r == Err::<(), _>(ProxyRejection::EngineExited),
{
    match outcome {
        DispatchOutcome::Sent => Ok(()),
        DispatchOutcome::Full => Err(ProxyRejection::EngineFull),
        DispatchOutcome::Closed => Err(ProxyRejection::EngineExited),
    }
}

/// The rejection that a permit outcome brings, if any.
pub open spec fn permit_rejection(p: PermitOutcome) -> Option<ProxyRejection> {
    match p {
        PermitOutcome::Acquired => None,
        PermitOutcome::NoPermits => Some(ProxyRejection::NoPermits),
        PermitOutcome::Closed => Some(ProxyRejection::PermitsClosed),
    }
}

/// The rejection that a dispatch outcome brings, if any.
pub open spec fn dispatch_rejection(d: DispatchOutcome) -> Option<ProxyRejection> {
    match d {
        DispatchOutcome::Sent => None,
        DispatchOutcome::Full => Some(ProxyRejection::EngineFull),
        DispatchOutcome::Closed => Some(ProxyRejection::EngineExited),
    }
}

/// Whether every byte of `v` is visible ASCII or a tab.
pub fn visible_ascii(v: &Vec<u8>) -> (r: bool)
    ensures
        r == is_visible_ascii(v@),
{
    let mut i: usize = 0;
    while i < v.len()
        invariant
            i <= v.len(),
            forall|j: int| 0 <= j < i ==> ((32 <= v@[j] && v@[j] < 127) || v@[j] == 9),
        decreases v.len() - i,
    {
        let b = v[i];
        if !((32 <= b && b < 127) || b == 9) {
            return false;
        }
        i += 1;
    }
    true
}

/// Takes the `X-Wasmx-Id` header out of the headers of a proxied request:
/// every value of it is removed, the other headers stay as they are, and
/// the first value comes back.
pub fn take_workload_id(headers: &mut Fields) -> (r: Option<Vec<u8>>)
    ensures
        final(headers).is_mutable() == old(headers).is_mutable(),
        final(headers).contents() == old(headers).contents().remove("x-wasmx-id"@),
        !old(headers).contents().dom().contains("x-wasmx-id"@) ==> r is None,
        old(headers).contents().dom().contains("x-wasmx-id"@) && old(headers).contents()[
            "x-wasmx-id"@].len() > 0 ==> (r matches Some(v) && v@ == old(headers).contents()[
            "x-wasmx-id"@][0]),
{
    proof {
        reveal_strlit("x-wasmx-id");
        assert(is_field_name("x-wasmx-id"@));
        assert(ascii_lower("x-wasmx-id"@) =~= "x-wasmx-id"@);
    }
    headers.take("x-wasmx-id")
}

/// Where a proxied request is on its way to a workload.
#[derive(Debug)]
pub enum ProxyState {
    /// The request came; its `X-Wasmx-Id` header is looked at next.
    Received,
    /// The workload is named; an instance permit was asked for.
    AwaitingPermit { name: Vec<u8> },
    /// A permit is held; the invocation was handed to the engine.
    AwaitingDispatch { name: Vec<u8> },
    /// The request went on to its workload, or was answered.
    Done,
}

/// What happened since the last step.
#[derive(Debug)]
pub enum ProxyEvent {
    /// The value of the request's `X-Wasmx-Id` header, if it had one.
    IdHeader(Option<Vec<u8>>),
    /// What asking for an instance permit gave.
    Permit(PermitOutcome),
    /// What handing the invocation to the engine gave.
    Dispatch(DispatchOutcome),
}

/// What the proxy does next.
#[derive(Debug)]
pub enum ProxyAction {
    /// Ask for an instance permit.
    Acquire,
    /// Hand an invocation of the workload that the next state names to the
    /// engine.
    Dispatch,
    /// Answer the request with this rejection.
    Reject(ProxyRejection),
    /// Wait for the workload's response.
    AwaitResponse,
    /// Nothing: the event does not belong to this state.
    Ignore,
}

/// The step of the proxy from `state` on `event`: the next state and the
/// action. An instance permit is asked for only once a valid workload name
/// came, and the invocation is handed over only once a permit was granted;
/// the first failure answers the request.
pub open spec fn proxy_next(state: ProxyState, event: ProxyEvent) -> (ProxyState, ProxyAction) {
    match (state, event) {
        (ProxyState::Received, ProxyEvent::IdHeader(None)) => (
            ProxyState::Done,
            ProxyAction::Reject(ProxyRejection::MissingId),
        ),
        (ProxyState::Received, ProxyEvent::IdHeader(Some(v))) => if is_visible_ascii(v@) {
            (ProxyState::AwaitingPermit { name: v }, ProxyAction::Acquire)
        } else {
            (ProxyState::Done, ProxyAction::Reject(ProxyRejection::InvalidId))
        },
        (ProxyState::AwaitingPermit { name }, ProxyEvent::Permit(p)) => match permit_rejection(p) {
            Some(e) => (ProxyState::Done, ProxyAction::Reject(e)),
            None => (ProxyState::AwaitingDispatch { name }, ProxyAction::Dispatch),
        },
        (ProxyState::AwaitingDispatch { .. }, ProxyEvent::Dispatch(d)) => match dispatch_rejection(d) {
            Some(e) => (ProxyState::Done, ProxyAction::Reject(e)),
            None => (ProxyState::Done, ProxyAction::AwaitResponse),
        },
        (s, _) => (s, ProxyAction::Ignore),
    }
}

/// Takes one step of a proxied request; the caller performs the action and
/// hands back what came of it.
pub fn proxy_step(state: ProxyState, event: ProxyEvent) -> (r: (ProxyState, ProxyAction))
    ensures
        r == proxy_next(state, event),
{
    match (state, event) {
        (ProxyState::Received, ProxyEvent::IdHeader(None)) => (
            ProxyState::Done,
            ProxyAction::Reject(ProxyRejection::MissingId),
        ),
        (ProxyState::Received, ProxyEvent::IdHeader(Some(v))) => if visible_ascii(&v) {
            (ProxyState::AwaitingPermit { name: v }, ProxyAction::Acquire)
        } else {
            (ProxyState::Done, ProxyAction::Reject(ProxyRejection::InvalidId))
        },
        (ProxyState::AwaitingPermit { name }, ProxyEvent::Permit(p)) => match p {
            PermitOutcome::Acquired => (ProxyState::AwaitingDispatch { name }, ProxyAction::Dispatch),
            PermitOutcome::NoPermits => (
                ProxyState::Done,
                ProxyAction::Reject(ProxyRejection::NoPermits),
            ),
            PermitOutcome::Closed => (
                ProxyState::Done,
                ProxyAction::Reject(ProxyRejection::PermitsClosed),
            ),
        },
        (ProxyState::AwaitingDispatch { name }, ProxyEvent::Dispatch(d)) => match d {
            DispatchOutcome::Sent => (ProxyState::Done, ProxyAction::AwaitResponse),
            DispatchOutcome::Full => (ProxyState::Done, ProxyAction::Reject(ProxyRejection::EngineFull)),
            DispatchOutcome::Closed => (
                ProxyState::Done,
                ProxyAction::Reject(ProxyRejection::EngineExited),
            ),
        },
        (s, _) => (s, ProxyAction::Ignore),
    }
}

/// No permit is asked for but right after a valid workload name came, and
/// no invocation is handed to the engine but right after a permit was
/// granted, for the name that came.
pub proof fn lemma_permit_before_dispatch(state: ProxyState, event: ProxyEvent)
    ensures
        proxy_next(state, event).1 is Acquire ==> state is Received && (event matches
            ProxyEvent::IdHeader(Some(v)) && is_visible_ascii(v@)),
        proxy_next(state, event).1 is Dispatch ==> (state matches ProxyState::AwaitingPermit {
            name,
        } && proxy_next(state, event).0 == ProxyState::AwaitingDispatch { name }) && event
            == ProxyEvent::Permit(PermitOutcome::Acquired),
        proxy_next(state, event).1 is AwaitResponse ==> state is AwaitingDispatch && event
            == ProxyEvent::Dispatch(DispatchOutcome::Sent),
{
}

/// A request whose workload name is missing or not visible ASCII is
/// answered at once with 400: nothing is asked for, nothing handed over.
pub proof fn lemma_refused_id_goes_no_further(header: Option<Vec<u8>>)
    ensures
        (header matches Some(v) ==> !is_visible_ascii(v@)) ==> ({
            let (next, action) = proxy_next(ProxyState::Received, ProxyEvent::IdHeader(header));
            &&& next is Done
            &&& action matches ProxyAction::Reject(e) && rejection_status(e) == 400
        }),
{
}

/// Each failure on a request's way to its workload has its own answer: a
/// missing or unreadable workload name is the client's fault (400), no
/// free instance and a full engine queue mean "try later" (503), and closed
/// permits or a gone engine are the host's fault (500).
pub proof fn lemma_each_failure_its_answer(name: Vec<u8>)
    ensures
        ({
            let (next, action) = proxy_next(
                ProxyState::AwaitingPermit { name },
                ProxyEvent::Permit(PermitOutcome::NoPermits),
            );
            next is Done && action == ProxyAction::Reject(ProxyRejection::NoPermits)
        }),
        ({
            let (next, action) = proxy_next(
                ProxyState::AwaitingPermit { name },
                ProxyEvent::Permit(PermitOutcome::Closed),
            );
            next is Done && action == ProxyAction::Reject(ProxyRejection::PermitsClosed)
        }),
        ({
            let (next, action) = proxy_next(
                ProxyState::AwaitingDispatch { name },
                ProxyEvent::Dispatch(DispatchOutcome::Full),
            );
            next is Done && action == ProxyAction::Reject(ProxyRejection::EngineFull)
        }),
        ({
            let (next, action) = proxy_next(
                ProxyState::AwaitingDispatch { name },
                ProxyEvent::Dispatch(DispatchOutcome::Closed),
            );
            next is Done && action == ProxyAction::Reject(ProxyRejection::EngineExited)
        }),
        proxy_next(ProxyState::Received, ProxyEvent::IdHeader(None)).1 == ProxyAction::Reject(
            ProxyRejection::MissingId,
        ),
        rejection_status(ProxyRejection::MissingId) == 400,
        rejection_status(ProxyRejection::InvalidId) == 400,
        rejection_status(ProxyRejection::NoPermits) == 503,
        rejection_status(ProxyRejection::EngineFull) == 503,
        rejection_status(ProxyRejection::PermitsClosed) == 500,
        rejection_status(ProxyRejection::EngineExited) == 500,
{
}

/// A workload name is readable exactly when each of its bytes is visible
/// ASCII or a tab: control characters, DEL and bytes past ASCII (such as
/// UTF-8 for non-ASCII letters) make it unreadable, wherever they stand.
pub proof fn lemma_readable_names(b: u8, v: Seq<u8>, w: Seq<u8>)
    ensures
        is_visible_ascii(seq![b]) <==> (b == 9 || (32 <= b && b < 127)),
        is_visible_ascii(Seq::<u8>::empty()),
        is_visible_ascii(v + w) <==> is_visible_ascii(v) && is_visible_ascii(w),
{
    assert(seq![b][0] == b);
    assert forall|i: int| 0 <= i < v.len() implies (v + w)[i] == v[i] by {}
    assert forall|i: int| 0 <= i < w.len() implies (v + w)[v.len() + i] == w[i] by {}
    if is_visible_ascii(v + w) {
        assert forall|i: int| 0 <= i < w.len() implies ((32 <= #[trigger] w[i] && w[i] < 127)
            || w[i] == 9) by {
            assert((v + w)[v.len() + i] == w[i]);
        }
    }
    if is_visible_ascii(v) && is_visible_ascii(w) {
        assert forall|i: int| 0 <= i < (v + w).len() implies ((32 <= #[trigger] (v + w)[i] && (v
            + w)[i] < 127) || (v + w)[i] == 9) by {
            if i >= v.len() {
                assert((v + w)[i] == w[i - v.len()]);
            }
        }
    }
}

/// Once a request is done, nothing more happens to it.
pub proof fn lemma_done_is_final(event: ProxyEvent)
    ensures
        proxy_next(ProxyState::Done, event) == (ProxyState::Done, ProxyAction::Ignore),
{
}

/// Why a request that reached a workload got no response.
#[derive(Debug)]
pub enum ProxyFailure<E> {
    /// The workload finished without sending a response.
    NoResponse,
    /// The workload trapped.
    Trapped(E),
    /// The workload's thread is gone.
    WorkloadExited,
    /// The workload answered with an error.
    HandlerFailed(ErrorCode),
}

/// The outcome of a request that reached a workload, from what came on the
/// response channel (`None`: it closed) and, where that closed, on the
/// channel that reports how the workload ended (`None`: it closed too).
pub fn proxy_response<R, E>(
    response: Option<Result<R, ErrorCode>>,
    done: Option<Result<(), E>>,
) -> (r: Result<R, ProxyFailure<E>>)
    ensures
        response matches Some(Ok(x)) ==> r == Ok::<R, ProxyFailure<E>>(x),
        response matches Some(Err(e)) ==> r matches Err(ProxyFailure::HandlerFailed(e2)) && e2
            == e,
        response is None ==> match done {
            Some(Ok(())) => r matches Err(ProxyFailure::NoResponse),
            Some(Err(e)) => r matches Err(ProxyFailure::Trapped(e2)) && e2 == e,
            None => r matches Err(ProxyFailure::WorkloadExited),
        },
{
    match response {
        Some(Ok(x)) => Ok(x),
        Some(Err(e)) => Err(ProxyFailure::HandlerFailed(e)),
        None => match done {
            Some(Ok(())) => Err(ProxyFailure::NoResponse),
            Some(Err(e)) => Err(ProxyFailure::Trapped(e)),
            None => Err(ProxyFailure::WorkloadExited),
        },
    }
}

/// The backlog of the proxy's listening socket: the instance limit, or
/// the most a `u32` holds.
pub fn listen_backlog(max_instances: usize) -> (r: u32)
    ensures
        max_instances <= u32::MAX ==> r == max_instances,
        max_instances > u32::MAX ==> r == u32::MAX,
{
    if max_instances as u64 > u32::MAX as u64 {
        u32::MAX
    } else {
        max_instances as u32
    }
}

/// The deadline for applying a manifest: one second of grace after `now`
/// (in milliseconds of the host's clock), or the end of that clock.
pub fn manifest_deadline(now: u64) -> (r: u64)
    ensures
        now + 1000 <= u64::MAX ==> r == now + 1000,
        now + 1000 > u64::MAX ==> r == u64::MAX,
{
    now.saturating_add(1000)
}

/// How a component's code is to be fetched.
#[derive(Clone, Copy, Debug, PartialEq, Eq, Structural)]
pub enum FetchPlan {
    /// Read the file at the path as it is.
    ReadPath,
    /// Read the file that a `file:` URL names.
    ReadFileUrl,
    /// Get it over HTTP.
    HttpGet,
}

/// Why the code cannot be fetched.
#[derive(Clone, Debug, PartialEq, Eq)]
pub enum FetchError {
    /// The source is neither a path nor a URL.
    InvalidUrl,
    /// The URL's scheme is not one the host fetches from.
    UnsupportedScheme(String),
}

/// The scheme of the URL that `s` is, if it is one, as the `url` crate
/// parses URLs.
pub uninterp spec fn url_scheme_of(s: Seq<char>) -> Option<Seq<char>>;

/// The scheme of the URL `src`, if it parses as one.
///
/// Calls `url::Url::parse` and `Url::scheme`; what they accept and give
/// is named, not stated.
#[verifier::external_body]
fn url_scheme(src: &str) -> (r: Option<String>)
    ensures
        r is Some <==> url_scheme_of(src@) is Some,
        r matches Some(s) ==> url_scheme_of(src@) == Some(s@),
{
    match url::Url::parse(src) {
        Ok(url) => Some(url.scheme().to_string()),
        Err(_) => None,
    }
}

/// Whether `src` is a path: it starts with `.` or `/`.
pub open spec fn is_path_src(src: Seq<char>) -> bool {
    src.len() > 0 && (src[0] == '.' || src[0] == '/')
}

/// A source that starts with `.` or `/` is a path and nothing else is:
/// `./a.wasm`, `/srv/a.wasm` and `../a.wasm` are read from disk, while
/// `https://…`, `file:///…` or an empty source go through URL parsing.
pub proof fn lemma_paths_start_with_dot_or_slash(src: Seq<char>)
    ensures
        is_path_src(src) <==> (src.len() > 0 && (src[0] == '.' || src[0] == '/')),
        src.len() > 0 && src[0] == '/' ==> is_path_src(src),
        src.len() > 0 && src[0] == '.' ==> is_path_src(src),
        src.len() == 0 ==> !is_path_src(src),
{
}

/// How code at `scheme` is fetched.
pub fn fetch_plan_for_scheme(scheme: String) -> (r: Result<FetchPlan, FetchError>)
    ensures
        scheme@ == "file"@ ==> r == Ok::<_, FetchError>(FetchPlan::ReadFileUrl),
        scheme@ == "http"@ || scheme@ == "https"@ ==> r == Ok::<_, FetchError>(FetchPlan::HttpGet),
        scheme@ != "file"@ && scheme@ != "http"@ && scheme@ != "https"@ ==> r == Err::<FetchPlan, _>(
            FetchError::UnsupportedScheme(scheme),
        ),
{
    proof {
        reveal_strlit("file");
        reveal_strlit("http");
        reveal_strlit("https");
        assert("file"@[0] != "http"@[0]);
        assert("file"@.len() != "https"@.len());
    }
    if scheme == String::from_str("file") {
        Ok(FetchPlan::ReadFileUrl)
    } else if scheme == String::from_str("http") || scheme == String::from_str("https") {
        Ok(FetchPlan::HttpGet)
    } else {
        Err(FetchError::UnsupportedScheme(scheme))
    }
}

/// How the code at `src` is fetched: a path is read; otherwise `src` must
/// be a URL of a scheme the host fetches from.
pub fn fetch_plan(src: &str) -> (r: Result<FetchPlan, FetchError>)
    ensures
        is_path_src(src@) ==> r == Ok::<_, FetchError>(FetchPlan::ReadPath),
        !is_path_src(src@) ==> match url_scheme_of(src@) {
            None => r == Err::<FetchPlan, _>(FetchError::InvalidUrl),
            Some(s) => if s == "file"@ {
                r == Ok::<_, FetchError>(FetchPlan::ReadFileUrl)
            } else if s == "http"@ || s == "https"@ {
                r == Ok::<_, FetchError>(FetchPlan::HttpGet)
            } else {
                r matches Err(FetchError::UnsupportedScheme(s2)) && s2@ == s
            },
        },
{
    if src.unicode_len() > 0 {
        let c = src.get_char(0);
        if c == '.' || c == '/' {
            return Ok(FetchPlan::ReadPath);
        }
    }
    match url_scheme(src) {
        None => Err(FetchError::InvalidUrl),
        Some(scheme) => fetch_plan_for_scheme(scheme),
    }
}

/// The largest of the differences between consecutive clock readings, but
/// at least one: the clock's resolution, as far as `instants` show it.
pub open spec fn resolution_of(instants: Seq<u64>, n: int) -> u64
    decreases n,
{
    if n <= 1 {
        1
    } else {
        let prev = resolution_of(instants, n - 1);
        let d = if instants[n - 1] >= instants[n - 2] {
            (instants[n - 1] - instants[n - 2]) as u64
        } else {
            0u64
        };
        if d > prev {
            d
        } else {
            prev
        }
    }
}

/// The resolution of a clock that gave `instants` (in nanoseconds) when
/// read again and again: the largest step between consecutive readings, a
/// reading that went back counting as none, and at least one nanosecond.
pub fn sample_clock_resolution(instants: &Vec<u64>) -> (r: u64)
    ensures
        r == resolution_of(instants@, instants.len() as int),
        r >= 1,
{
    let mut resolution: u64 = 1;
    let mut i: usize = 1;
    if instants.len() == 0 {
        return 1;
    }
    while i < instants.len()
        invariant
            1 <= i <= instants.len(),
            resolution == resolution_of(instants@, i as int),
            resolution >= 1,
        decreases instants.len() - i,
    {
        let a = instants[i - 1];
        let b = instants[i];
        let d = b.saturating_sub(a);
        if d > resolution {
            resolution = d;
        }
        i += 1;
    }
    resolution
}


/// Why the body that a workload streams to a proxied response failed.
#[derive(Debug)]
pub enum ReceiverError<E> {
    /// The workload failed.
    Workload(E),
    /// The workload's result channel closed without a result.
    ResultSenderClosed,
    /// The trailer channel closed without trailers.
    TrailerSenderClosed,
}

/// The state of the body that a workload streams to a proxied response:
/// whether the workload's result is still to be checked, and whether data
/// may still come.
pub struct BodyReceiver {
    awaiting_result: bool,
    data_open: bool,
}

impl BodyReceiver {
    /// Whether the workload's result is still to be checked.
    pub closed spec fn awaits_result(&self) -> bool {
        self.awaiting_result
    }

    /// Whether data may still come.
    pub closed spec fn takes_data(&self) -> bool {
        self.data_open
    }

    /// A body that waits for the workload's result and its data.
    pub fn new() -> (r: Self)
        ensures
            r.awaits_result(),
            r.takes_data(),
    {
        BodyReceiver { awaiting_result: true, data_open: true }
    }

    /// Whether the workload's result is still to be checked.
    pub fn wants_result(&self) -> (r: bool)
        ensures
            r == self.awaits_result(),
    {
        self.awaiting_result
    }

    /// Whether data may still come.
    pub fn wants_data(&self) -> (r: bool)
        ensures
            r == self.takes_data(),
    {
        self.data_open
    }

    /// Takes in what the result channel holds (`None`: nothing yet;
    /// `Some(Err(()))`: it closed). A result ends the wait; a failure of the
    /// workload, or a closed channel, fails the body.
    pub fn take_result<E>(&mut self, status: Option<Result<Result<(), E>, ()>>) -> (r: Result<
        (),
        ReceiverError<E>,
    >)
        ensures
            final(self).takes_data() == old(self).takes_data(),
            status is None ==> r is Ok && final(self).awaits_result() == old(self).awaits_result(),
            status matches Some(Ok(Ok(()))) ==> r is Ok && !final(self).awaits_result(),
            status matches Some(Ok(Err(e))) ==> (r matches Err(ReceiverError::Workload(e2)) && e2
                == e && !final(self).awaits_result()),
            status matches Some(Err(_)) ==> (r matches Err(ReceiverError::ResultSenderClosed)
                && !final(self).awaits_result()),
    {
        match status {
            None => Ok(()),
            Some(Ok(Ok(()))) => {
                self.awaiting_result = false;
                Ok(())
            },
            Some(Ok(Err(e))) => {
                self.awaiting_result = false;
                Err(ReceiverError::Workload(e))
            },
            Some(Err(_)) => {
                self.awaiting_result = false;
                Err(ReceiverError::ResultSenderClosed)
            },
        }
    }

    /// Takes in what the data channel gave: a chunk is the next frame; its
    /// end means that only the trailers are left.
    pub fn data_received(&mut self, chunk: Option<Vec<u8>>) -> (r: Option<Vec<u8>>)
        ensures
            final(self).awaits_result() == old(self).awaits_result(),
            r == chunk,
            final(self).takes_data() == (old(self).takes_data() && chunk is Some),
    {
        match chunk {
            Some(c) => Some(c),
            None => {
                self.data_open = false;
                None
            },
        }
    }
}

/// The last frame of a body that a workload streamed, from what the trailer
/// channel gave (`Err(())`: it closed): the trailers, the end of the body, or
/// a failure.
pub fn trailers_frame<T, E>(trailers: Result<Option<T>, ()>) -> (r: Option<Result<T, ReceiverError<E>>>)
    ensures
        trailers matches Ok(Some(t)) ==> r == Some(Ok::<T, ReceiverError<E>>(t)),
        trailers matches Ok(None) ==> r is None,
        trailers is Err ==> r matches Some(Err(ReceiverError::TrailerSenderClosed)),
{
    match trailers {
        Ok(Some(t)) => Some(Ok(t)),
        Ok(None) => None,
        Err(_) => Some(Err(ReceiverError::TrailerSenderClosed)),
    }
}

} // verus!
