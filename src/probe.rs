//! The probing session as a state machine. Each step is driven by the caller:
//! it asks for the next request, performs it, and reports the outcome back.
//! The machine classifies the outcome and keeps the session credential and the
//! request count. When the endpoint signals that the session has expired, no
//! further request is issued until a new credential is supplied.

use crate::config::Config;
use crate::request::{cookie_of, make_php_session_cookie, make_request, url_of};
use crate::stats::{is_report_point, is_report_point_spec};
use crate::whitespace::{trim_of, trimmed};
use vstd::prelude::*;
use vstd::string::*;

verus! {

/// Status code of an existing file.
pub const STATUS_FOUND: u32 = 200;

/// Status code by which the endpoint signals an expired session.
pub const STATUS_SESSION_EXPIRED: u32 = 302;

/// Status code of a file that does not exist.
pub const STATUS_NOT_FOUND: u32 = 404;

/// What came back from one dispatched request.
#[derive(Debug)]
pub enum Outcome {
    /// The endpoint answered with this status code.
    Status(u32),
    /// The request failed in transport; the detail is for the operator.
    TransportFailure(String),
}

/// Mathematical model of an [`Outcome`].
pub enum OutcomeView {
    Status(u32),
    TransportFailure(Seq<char>),
}

impl View for Outcome {
    type V = OutcomeView;

    open spec fn view(&self) -> OutcomeView {
        match self {
            Outcome::Status(code) => OutcomeView::Status(*code),
            Outcome::TransportFailure(detail) => OutcomeView::TransportFailure(detail@),
        }
    }
}

/// What the caller does about one outcome.
#[derive(Debug)]
pub enum Action {
    /// The file exists: write its identifier to the primary output.
    Found(String),
    /// The session has expired: obtain a new credential before going on.
    SessionExpired,
    /// The file does not exist: nothing to do.
    NotFound,
    /// An unexpected status: warn, naming the status and the identifier.
    Unexpected(u32, String),
    /// A transport failure: report its detail.
    TransportFailure(String),
}

/// Mathematical model of an [`Action`].
pub enum ActionView {
    Found(Seq<char>),
    SessionExpired,
    NotFound,
    Unexpected(u32, Seq<char>),
    TransportFailure(Seq<char>),
}

impl View for Action {
    type V = ActionView;

    open spec fn view(&self) -> ActionView {
        match self {
            Action::Found(id) => ActionView::Found(id@),
            Action::SessionExpired => ActionView::SessionExpired,
            Action::NotFound => ActionView::NotFound,
            Action::Unexpected(code, id) => ActionView::Unexpected(*code, id@),
            Action::TransportFailure(detail) => ActionView::TransportFailure(detail@),
        }
    }
}

/// The action owed for `outcome` of the request for `file_id`.
pub open spec fn action_of(outcome: OutcomeView, file_id: Seq<char>) -> ActionView {
    match outcome {
        OutcomeView::Status(code) => if code == STATUS_FOUND {
            ActionView::Found(file_id)
        } else if code == STATUS_SESSION_EXPIRED {
            ActionView::SessionExpired
        } else if code == STATUS_NOT_FOUND {
            ActionView::NotFound
        } else {
            ActionView::Unexpected(code, file_id)
        },
        OutcomeView::TransportFailure(detail) => ActionView::TransportFailure(detail),
    }
}

/// Classifies `outcome` of the request for `file_id`.
pub fn classify(outcome: Outcome, file_id: &str) -> (r: Action)
    ensures
        r@ == action_of(outcome@, file_id@),
{
    match outcome {
        Outcome::Status(code) => if code == STATUS_FOUND {
            Action::Found(file_id.to_owned())
        } else if code == STATUS_SESSION_EXPIRED {
            Action::SessionExpired
        } else if code == STATUS_NOT_FOUND {
            Action::NotFound
        } else {
            Action::Unexpected(code, file_id.to_owned())
        },
        Outcome::TransportFailure(detail) => Action::TransportFailure(detail),
    }
}

/// One request to dispatch.
pub struct ProbeRequest {
    /// The URL to fetch.
    pub url: String,
    /// The cookie header value carrying the current session credential.
    pub cookie: String,
    /// Number of this request, counted from 1.
    pub request_number: u64,
    /// Whether a statistics line is due with this request.
    pub report_stats: bool,
}

/// Mathematical model of a [`ProbeRequest`].
pub struct ProbeRequestView {
    pub url: Seq<char>,
    pub cookie: Seq<char>,
    pub request_number: nat,
    pub report_stats: bool,
}

impl View for ProbeRequest {
    type V = ProbeRequestView;

    open spec fn view(&self) -> ProbeRequestView {
        ProbeRequestView {
            url: self.url@,
            cookie: self.cookie@,
            request_number: self.request_number as nat,
            report_stats: self.report_stats,
        }
    }
}

/// State of a probing session.
pub struct Prober {
    path: String,
    cookie: String,
    requests: u64,
    awaiting_credential: bool,
}

/// Mathematical model of a [`Prober`].
pub struct ProberView {
    /// Endpoint prefix, fixed for the session.
    pub path: Seq<char>,
    /// Cookie carrying the live session credential.
    pub cookie: Seq<char>,
    /// Requests issued so far.
    pub requests: nat,
    /// The session has expired and no new credential has been supplied yet.
    pub awaiting_credential: bool,
}

impl View for Prober {
    type V = ProberView;

    closed spec fn view(&self) -> ProberView {
        ProberView {
            path: self.path@,
            cookie: self.cookie@,
            requests: self.requests as nat,
            awaiting_credential: self.awaiting_credential,
        }
    }
}

/// The state at the start of a session.
pub open spec fn initial_state(path: Seq<char>, session_id: Seq<char>) -> ProberView {
    ProberView { path, cookie: cookie_of(session_id), requests: 0, awaiting_credential: false }
}

/// The request issued in state `s` for `file_id`; none while a new credential
/// is awaited.
pub open spec fn request_of(s: ProberView, file_id: Seq<char>) -> Option<ProbeRequestView> {
    if s.awaiting_credential {
        None
    } else {
        Some(
            ProbeRequestView {
                url: url_of(s.path, file_id),
                cookie: s.cookie,
                request_number: s.requests + 1,
                report_stats: is_report_point_spec(s.requests + 1),
            },
        )
    }
}

/// The state after asking for a request in state `s`.
pub open spec fn after_request(s: ProberView) -> ProberView {
    if s.awaiting_credential {
        s
    } else {
        ProberView { requests: s.requests + 1, ..s }
    }
}

/// The state after `outcome` is reported in state `s`.
pub open spec fn after_outcome(s: ProberView, outcome: OutcomeView) -> ProberView {
    if outcome == OutcomeView::Status(STATUS_SESSION_EXPIRED) {
        ProberView { awaiting_credential: true, ..s }
    } else {
        s
    }
}

/// The state after the credential `session_id` is supplied in state `s`.
pub open spec fn after_credential(s: ProberView, session_id: Seq<char>) -> ProberView {
    ProberView { cookie: cookie_of(session_id), awaiting_credential: false, ..s }
}

impl Prober {
    /// Starts a session with the configured path and initial credential.
    pub fn new(config: Config) -> (r: Prober)
        ensures
            r@ == initial_state(config.path@, config.session_id@),
    {
        let cookie = make_php_session_cookie(config.session_id.as_str());
        Prober { path: config.path, cookie, requests: 0, awaiting_credential: false }
    }

    /// The endpoint prefix.
    pub fn path(&self) -> (r: &str)
        ensures
            r@ == self@.path,
    {
        self.path.as_str()
    }

    /// The cookie carrying the live session credential.
    pub fn cookie(&self) -> (r: &str)
        ensures
            r@ == self@.cookie,
    {
        self.cookie.as_str()
    }

    /// Requests issued so far.
    pub fn requests(&self) -> (r: u64)
        ensures
            r as nat == self@.requests,
    {
        self.requests
    }

    /// Whether the session has expired and a new credential is awaited.
    pub fn is_awaiting_credential(&self) -> (r: bool)
        ensures
            r == self@.awaiting_credential,
    {
        self.awaiting_credential
    }

    /// The request for `file_id`, counted as issued; `None`, with nothing
    /// changed, while a new credential is awaited.
    pub fn begin_request(&mut self, file_id: &str) -> (r: Option<ProbeRequest>)
        requires
            old(self)@.requests < u64::MAX,
        ensures
            r matches Some(q) ==> request_of(old(self)@, file_id@) == Some(q@),
            r is None <==> request_of(old(self)@, file_id@) is None,
            final(self)@ == after_request(old(self)@),
    {
        if self.awaiting_credential {
            return None;
        }
        self.requests = self.requests + 1;
        let url = make_request(self.path.as_str(), file_id);
        let cookie = self.cookie.clone();
        let report_stats = is_report_point(self.requests);
        Some(ProbeRequest { url, cookie, request_number: self.requests, report_stats })
    }

    /// Takes in the outcome of the request for `file_id` and says what to do
    /// about it. An expired session leaves the machine awaiting a credential;
    /// any other outcome leaves the state as it was.
    pub fn handle(&mut self, outcome: Outcome, file_id: &str) -> (r: Action)
        ensures
            r@ == action_of(outcome@, file_id@),
            final(self)@ == after_outcome(old(self)@, outcome@),
    {
        let action = classify(outcome, file_id);
        if let Action::SessionExpired = action {
            self.awaiting_credential = true;
        }
        action
    }

    /// Replaces the session credential with `session_id`, used as given, and
    /// resumes issuing requests.
    pub fn set_session(&mut self, session_id: &str)
        ensures
            final(self)@ == after_credential(old(self)@, session_id@),
    {
        self.cookie = make_php_session_cookie(session_id);
        self.awaiting_credential = false;
    }

    /// Replaces the session credential with the operator's input `line`,
    /// stripped of surrounding whitespace, and resumes issuing requests.
    pub fn renew_session(&mut self, line: &str)
        ensures
            final(self)@ == after_credential(old(self)@, trim_of(line@)),
    {
        let session_id = trimmed(line);
        self.set_session(session_id.as_str());
    }
}

/// Classification is a fixed mapping from outcome to action, and only an
/// expired session changes the state: an existing file yields exactly its
/// identifier for the primary output, a missing file yields nothing, and any
/// other status yields one warning that carries both the status and the
/// identifier.
pub proof fn lemma_classification(s: ProberView, outcome: OutcomeView, file_id: Seq<char>)
    ensures
        outcome != OutcomeView::Status(STATUS_SESSION_EXPIRED) ==> after_outcome(s, outcome)
            == s,
        outcome == OutcomeView::Status(STATUS_FOUND) ==> action_of(outcome, file_id)
            == ActionView::Found(file_id),
        outcome == OutcomeView::Status(STATUS_NOT_FOUND) ==> action_of(outcome, file_id)
            == ActionView::NotFound,
        forall|code: u32|
            outcome == OutcomeView::Status(code) && code != STATUS_FOUND && code
                != STATUS_SESSION_EXPIRED && code != STATUS_NOT_FOUND ==> action_of(
                outcome,
                file_id,
            ) == ActionView::Unexpected(code, file_id),
{
}

/// An expired session blocks the machine: it awaits a credential and issues
/// no request, however often asked, until one is supplied. After that,
/// requests resume with the new credential alone and the count carries on.
pub proof fn lemma_expiry_blocks_until_renewed(
    s: ProberView,
    session_id: Seq<char>,
    file_id: Seq<char>,
)
    ensures
        ({
            let expired = after_outcome(s, OutcomeView::Status(STATUS_SESSION_EXPIRED));
            let renewed = after_credential(expired, session_id);
            &&& action_of(OutcomeView::Status(STATUS_SESSION_EXPIRED), file_id)
                == ActionView::SessionExpired
            &&& expired.awaiting_credential
            &&& request_of(expired, file_id) is None
            &&& after_request(expired) == expired
            &&& !renewed.awaiting_credential
            &&& request_of(renewed, file_id) == Some(
                ProbeRequestView {
                    url: url_of(s.path, file_id),
                    cookie: cookie_of(session_id),
                    request_number: s.requests + 1,
                    report_stats: is_report_point_spec(s.requests + 1),
                },
            )
        }),
{
}

/// Statistics are due exactly on requests 100, 200, 300, ...: each issued
/// request carries the next number in sequence, a report is due with it
/// exactly when that number is a multiple of 100, and neither outcomes nor
/// credential renewals change the count.
pub proof fn lemma_stats_every_hundredth(
    s: ProberView,
    file_id: Seq<char>,
    outcome: OutcomeView,
    session_id: Seq<char>,
)
    requires
        !s.awaiting_credential,
    ensures
        request_of(s, file_id) matches Some(q) && q.request_number == s.requests + 1
            && q.request_number == after_request(s).requests && (q.report_stats
            <==> q.request_number % 100 == 0),
        after_outcome(s, outcome).requests == s.requests,
        after_credential(s, session_id).requests == s.requests,
{
}

} // verus!
