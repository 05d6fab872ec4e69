use vstd::prelude::*;
use crate::envelope::{
    EnvelopeView, GenericResponse, FAILURE_CODE, SUCCESS_MESSAGE, INTERNAL_MESSAGE,
    ACCESS_FAIL_MESSAGE, FATAL_MESSAGE, PARSE_ERROR_MESSAGE, failure_view, normalize, normalized,
};
use crate::error::{Error, ErrorView, failure_of};

verus! {

/// Name of the key-value namespace that holds the configuration.
pub const KV_BINDING: &'static str = "EMAR_BORING";

/// Key under which the namespace holds the upstream URL.
pub const KV_UPSTREAM_URL_KEY: &'static str = "dp_zombie_task";

/// Text logged with a non-success upstream status.
pub const UPSTREAM_STATUS_TEXT: &'static str = "Upstream API returned an error";

/// What the host reports back after performing an [`Action`].
#[derive(Debug)]
pub enum Event {
    /// The inbound `GET /zombie/task` has arrived.
    Begin,
    /// The store lookup finished: the value, no value under the key, or a failure.
    Config(Result<Option<String>, Error>),
    /// The upstream GET finished: its HTTP status, or a transport failure.
    Status(Result<u16, Error>),
    /// The upstream body was decoded as an envelope, or could not be.
    Body(Result<GenericResponse, Error>),
}

/// What the host must do next.
#[derive(Debug)]
pub enum Action {
    /// Read `key` from the namespace bound as `binding`.
    LookupConfig { binding: String, key: String },
    /// Issue a GET to `url` and report its status.
    Fetch { url: String },
    /// Decode the body of the response just fetched.
    ReadBody,
    /// Answer with HTTP 200 and `envelope` as JSON; log `cause` if there is one.
    Respond { envelope: GenericResponse, cause: Option<Error> },
}

pub ghost enum EventView {
    Begin,
    Config(Result<Option<Seq<char>>, ErrorView>),
    Status(Result<u16, ErrorView>),
    Body(Result<EnvelopeView, ErrorView>),
}

pub ghost enum ActionView {
    LookupConfig { binding: Seq<char>, key: Seq<char> },
    Fetch { url: Seq<char> },
    ReadBody,
    Respond { envelope: EnvelopeView, cause: Option<ErrorView> },
}

impl View for Event {
    type V = EventView;

    open spec fn view(&self) -> EventView {
        match self {
            Event::Begin => EventView::Begin,
            Event::Config(Ok(Some(url))) => EventView::Config(Ok(Some(url@))),
            Event::Config(Ok(None)) => EventView::Config(Ok(None)),
            Event::Config(Err(e)) => EventView::Config(Err(e@)),
            Event::Status(Ok(s)) => EventView::Status(Ok(*s)),
            Event::Status(Err(e)) => EventView::Status(Err(e@)),
            Event::Body(Ok(raw)) => EventView::Body(Ok(raw@)),
            Event::Body(Err(e)) => EventView::Body(Err(e@)),
        }
    }
}

impl View for Action {
    type V = ActionView;

    open spec fn view(&self) -> ActionView {
        match self {
            Action::LookupConfig { binding, key } => ActionView::LookupConfig {
                binding: binding@,
                key: key@,
            },
            Action::Fetch { url } => ActionView::Fetch { url: url@ },
            Action::ReadBody => ActionView::ReadBody,
            Action::Respond { envelope, cause } => ActionView::Respond {
                envelope: envelope@,
                cause: match cause {
                    Some(e) => Some(e@),
                    None => None,
                },
            },
        }
    }
}

/// An HTTP status in the success class 200..=299.
pub open spec fn status_is_success(status: u16) -> bool {
    200 <= status <= 299
}

/// Answer with the fixed envelope of `e`, logging `e`.
pub open spec fn respond_with(e: ErrorView) -> ActionView {
    ActionView::Respond { envelope: failure_view(failure_of(e)), cause: Some(e) }
}

/// The next action after an event.
pub open spec fn step(event: EventView) -> ActionView {
    match event {
        EventView::Begin => ActionView::LookupConfig {
            binding: KV_BINDING@,
            key: KV_UPSTREAM_URL_KEY@,
        },
        EventView::Config(Ok(Some(url))) => ActionView::Fetch { url },
        EventView::Config(Ok(None)) => respond_with(ErrorView::KvKeyNotFound(KV_UPSTREAM_URL_KEY@)),
        EventView::Config(Err(e)) => respond_with(e),
        EventView::Status(Ok(s)) => if status_is_success(s) {
            ActionView::ReadBody
        } else {
            respond_with(ErrorView::UpstreamApi(s, UPSTREAM_STATUS_TEXT@))
        },
        EventView::Status(Err(e)) => respond_with(e),
        EventView::Body(Ok(raw)) => ActionView::Respond { envelope: normalized(raw), cause: None },
        EventView::Body(Err(e)) => respond_with(e),
    }
}

/// Whether `status` is in the success class 200..=299.
pub fn is_success(status: u16) -> (r: bool)
    ensures
        r == status_is_success(status),
{
    200 <= status && status <= 299
}

/// The action that answers with the fixed envelope of `e`.
fn respond_error(e: Error) -> (r: Action)
    ensures
        r@ == respond_with(e@),
{
    let envelope = e.failure().envelope();
    Action::Respond { envelope, cause: Some(e) }
}

/// Decides what the handler of `GET /zombie/task` does after `event`: look up
/// the upstream URL, fetch it, decode its body, or answer the client. Every
/// failure is answered in-band with a fixed envelope and HTTP 200.
pub fn zombie_task(event: Event) -> (r: Action)
    ensures
        r@ == step(event@),
{
    match event {
        Event::Begin => Action::LookupConfig {
            binding: String::from_str(KV_BINDING),
            key: String::from_str(KV_UPSTREAM_URL_KEY),
        },
        Event::Config(Ok(Some(url))) => Action::Fetch { url },
        Event::Config(Ok(None)) => respond_error(
            Error::KvKeyNotFound(String::from_str(KV_UPSTREAM_URL_KEY)),
        ),
        Event::Config(Err(e)) => respond_error(e),
        Event::Status(Ok(status)) => if is_success(status) {
            Action::ReadBody
        } else {
            respond_error(Error::UpstreamApi(status, String::from_str(UPSTREAM_STATUS_TEXT)))
        },
        Event::Status(Err(e)) => respond_error(e),
        Event::Body(Ok(raw)) => Action::Respond { envelope: normalize(raw), cause: None },
        Event::Body(Err(e)) => respond_error(e),
    }
}

/// The action that ends one request, given what the store lookup reported,
/// what the upstream GET reported, and how its body decoded. A report that the
/// request never reaches is ignored.
pub open spec fn run(
    config: Result<Option<Seq<char>>, ErrorView>,
    status: Result<u16, ErrorView>,
    body: Result<EnvelopeView, ErrorView>,
) -> ActionView {
    match step(EventView::Config(config)) {
        ActionView::Fetch { .. } => match step(EventView::Status(status)) {
            ActionView::ReadBody => step(EventView::Body(body)),
            a => a,
        },
        a => a,
    }
}

/// Whether `a` answers the client with `env`.
pub open spec fn responds_with(a: ActionView, env: EnvelopeView) -> bool {
    &&& a is Respond
    &&& a->Respond_envelope == env
}

/// The failure envelope with `message`: the failure code and no data.
pub open spec fn fixed_failure(message: Seq<char>) -> EnvelopeView {
    EnvelopeView { code: FAILURE_CODE as int, message: Some(message), data: None }
}

/// Every request starts with a lookup of the upstream URL under its fixed key,
/// and every request ends with an answer to the client whose envelope carries
/// a message.
pub proof fn lemma_every_request_is_answered(
    config: Result<Option<Seq<char>>, ErrorView>,
    status: Result<u16, ErrorView>,
    body: Result<EnvelopeView, ErrorView>,
)
    ensures
        step(EventView::Begin) == (ActionView::LookupConfig {
            binding: KV_BINDING@,
            key: KV_UPSTREAM_URL_KEY@,
        }),
        run(config, status, body) is Respond,
        run(config, status, body)->Respond_envelope.message is Some,
{
}

/// When the upstream answers with a success status and a reduced body whose
/// code is zero, the client receives that code, the upstream's data, and the
/// fixed success message.
pub proof fn lemma_reduced_success_keeps_data(
    url: Seq<char>,
    status: u16,
    data: Option<serde_json::Value>,
)
    requires
        status_is_success(status),
    ensures
        run(Ok(Some(url)), Ok(status), Ok(EnvelopeView { code: 0, message: None, data }))
            == (ActionView::Respond {
            envelope: EnvelopeView { code: 0, message: Some(SUCCESS_MESSAGE@), data },
            cause: None,
        }),
{
}

/// When the upstream answers with a success status and a reduced body whose
/// code is not zero, the client receives the fixed parse-error envelope.
pub proof fn lemma_reduced_failure_is_parse_error(
    url: Seq<char>,
    status: u16,
    code: int,
    data: Option<serde_json::Value>,
)
    requires
        status_is_success(status),
        code != 0,
    ensures
        responds_with(
            run(Ok(Some(url)), Ok(status), Ok(EnvelopeView { code, message: None, data })),
            fixed_failure(PARSE_ERROR_MESSAGE@),
        ),
        FAILURE_CODE == -1,
{
}

/// When the upstream answers with a status outside 200..=299, the client
/// receives the fixed fatal-error envelope, whatever the body holds.
pub proof fn lemma_bad_status_is_fatal(
    url: Seq<char>,
    status: u16,
    body: Result<EnvelopeView, ErrorView>,
)
    requires
        !status_is_success(status),
    ensures
        responds_with(run(Ok(Some(url)), Ok(status), body), fixed_failure(FATAL_MESSAGE@)),
{
}

/// When the upstream cannot be reached, the client receives the fixed
/// access-failure envelope.
pub proof fn lemma_transport_failure_is_access_fail(
    url: Seq<char>,
    cause: Seq<char>,
    body: Result<EnvelopeView, ErrorView>,
)
    ensures
        responds_with(
            run(Ok(Some(url)), Err(ErrorView::Reqwest(cause)), body),
            fixed_failure(ACCESS_FAIL_MESSAGE@),
        ),
{
}

/// When the store holds no upstream URL, cannot be read, or is not bound, the
/// client receives the internal-error envelope, and the upstream is never asked.
pub proof fn lemma_config_failure_is_internal(
    config: Result<Option<Seq<char>>, ErrorView>,
    status: Result<u16, ErrorView>,
    body: Result<EnvelopeView, ErrorView>,
)
    requires
        match config {
            Ok(Some(_)) => false,
            Ok(None) => true,
            Err(e) => e is Worker || e is KvError || e is KvKeyNotFound,
        },
    ensures
        !(step(EventView::Config(config)) is Fetch),
        responds_with(run(config, status, body), fixed_failure(INTERNAL_MESSAGE@)),
{
}

/// The handler keeps no state between requests: two requests that get the
/// same reports from the store and the upstream are answered alike, and two
/// events that are alike lead to the same next action.
pub proof fn lemma_same_reports_same_answer(
    first: (Result<Option<Seq<char>>, ErrorView>, Result<u16, ErrorView>, Result<EnvelopeView, ErrorView>),
    second: (Result<Option<Seq<char>>, ErrorView>, Result<u16, ErrorView>, Result<EnvelopeView, ErrorView>),
    e1: Event,
    e2: Event,
)
    requires
        first == second,
        e1@ == e2@,
    ensures
        run(first.0, first.1, first.2) == run(second.0, second.1, second.2),
        step(e1@) == step(e2@),
{
}

} // verus!
