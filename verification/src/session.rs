//! The engine that every request goes through. It never touches the store or
//! the network itself: it says what is to be done next, is told what came of
//! it, and in the end says what the client is answered.

use crate::blackout::{BlackoutCalendar, RangeModel};
use crate::calendar::{CalendarDate, Ymd};
use crate::key::{archive_name, artifact_name, key_text, DateKey};
use crate::resolver::{
    resolution, resolve, RejectKind, Rejection, RejectionModel, Request, RequestModel,
};
use crate::store::{cache_state, moment, probe, CacheState, DEFAULT_TTL};
use crate::text::{append_decimal, decimal};
use crate::upstream::{upstream_url, url_for, FetchOutcome, OutcomeModel};
use vstd::prelude::*;
use vstd::string::*;

verus! {

/// The model of a `Config`.
pub struct ConfigModel {
    pub ttl: int,
    pub maintenance: bool,
    pub upstream_base: Seq<char>,
    pub public_base: Seq<char>,
    pub calendar: Seq<RangeModel>,
    pub keep_replaced: bool,
}

/// What the engine is set up with.
#[derive(Clone, Debug, PartialEq, Eq)]
pub struct Config {
    /// The age, in seconds, from which a stored document is no longer fresh.
    pub ttl: u64,
    /// While set, every request is answered that the service is unavailable,
    /// and neither the store nor upstream is asked.
    pub maintenance: bool,
    /// The address of upstream, up to the name of a document's file.
    pub upstream_base: String,
    /// The address under which clients reach this service.
    pub public_base: String,
    /// The closed ranges of the year.
    pub calendar: BlackoutCalendar,
    /// Whether a document that is replaced is kept under another name.
    pub keep_replaced: bool,
}

impl View for Config {
    type V = ConfigModel;

    open spec fn view(&self) -> ConfigModel {
        ConfigModel {
            ttl: self.ttl as int,
            maintenance: self.maintenance,
            upstream_base: self.upstream_base@,
            public_base: self.public_base@,
            calendar: self.calendar@,
            keep_replaced: self.keep_replaced,
        }
    }
}

/// The model of a `RequestResult`.
pub enum ResultModel {
    Ready { key: Ymd, link: Seq<char> },
    Rejected(RejectionModel),
}

/// What a client is answered.
#[derive(Clone, Debug, PartialEq, Eq)]
pub enum RequestResult {
    /// The document of `key` is stored and can be had under `link`.
    Ready { key: DateKey, link: String },
    /// The request is turned down.
    Rejected(Rejection),
}

impl View for RequestResult {
    type V = ResultModel;

    open spec fn view(&self) -> ResultModel {
        match self {
            RequestResult::Ready { key, link } => ResultModel::Ready { key: key@, link: link@ },
            RequestResult::Rejected(rejection) => ResultModel::Rejected(rejection@),
        }
    }
}

/// The model of a `Phase`.
pub enum PhaseModel {
    Probing { key: Ymd },
    Fetching { key: Ymd, prior: Option<int> },
    Committing { key: Ymd },
    Finished,
}

/// How far the handling of one request has come.
#[derive(Clone, Debug, PartialEq, Eq)]
pub enum Phase {
    /// The store is being looked at.
    Probing { key: DateKey },
    /// Upstream is being asked. `prior` is the moment of the last write of
    /// the stale document that is stored, or nothing where none is stored.
    Fetching { key: DateKey, prior: Option<i64> },
    /// The new document is being written.
    Committing { key: DateKey },
    /// The client has its answer.
    Finished,
}

impl View for Phase {
    type V = PhaseModel;

    open spec fn view(&self) -> PhaseModel {
        match self {
            Phase::Probing { key } => PhaseModel::Probing { key: key@ },
            Phase::Fetching { key, prior } => PhaseModel::Fetching {
                key: key@,
                prior: moment(*prior),
            },
            Phase::Committing { key } => PhaseModel::Committing { key: key@ },
            Phase::Finished => PhaseModel::Finished,
        }
    }
}

/// The model of an `Action`.
pub enum ActionModel {
    Probe { key: Ymd },
    Fetch { key: Ymd, url: Seq<char> },
    Commit { key: Ymd, bytes: Seq<u8>, archive: Option<Seq<char>> },
    Reply(ResultModel),
    Abort,
}

/// What the engine asks to have done next.
#[derive(Clone, Debug, PartialEq, Eq)]
pub enum Action {
    /// Look whether a document of `key` is stored, and when it was last
    /// written.
    Probe { key: DateKey },
    /// Fetch the document of `key` from `url`, once.
    Fetch { key: DateKey, url: String },
    /// Store `bytes` as the document of `key`, in place of what is stored for
    /// it: first keep the stored document under the name `archive`, where
    /// one is given, then write under the staging name, then rename.
    Commit { key: DateKey, bytes: Vec<u8>, archive: Option<String> },
    /// Answer the client.
    Reply(RequestResult),
    /// End the request with an internal error: something happened that the
    /// engine has no answer for.
    Abort,
}

impl View for Action {
    type V = ActionModel;

    open spec fn view(&self) -> ActionModel {
        match self {
            Action::Probe { key } => ActionModel::Probe { key: key@ },
            Action::Fetch { key, url } => ActionModel::Fetch { key: key@, url: url@ },
            Action::Commit { key, bytes, archive } => ActionModel::Commit {
                key: key@,
                bytes: bytes@,
                archive: match archive {
                    Some(name) => Some(name@),
                    None => None,
                },
            },
            Action::Reply(result) => ActionModel::Reply(result@),
            Action::Abort => ActionModel::Abort,
        }
    }
}

/// The model of an `Event`.
pub enum EventModel {
    Probed { written: Option<int>, now: int },
    Fetched(OutcomeModel),
    Committed,
    Failed,
}

/// What came of the action that the engine asked for.
#[derive(Clone, Debug, PartialEq, Eq)]
pub enum Event {
    /// The store was looked at, at the moment `now`: the document was last
    /// written at `written`, or none is stored. Both in seconds.
    Probed { written: Option<i64>, now: i64 },
    /// Upstream was asked.
    Fetched(FetchOutcome),
    /// The document was stored.
    Committed,
    /// The store could not be read or written.
    Failed,
}

impl View for Event {
    type V = EventModel;

    open spec fn view(&self) -> EventModel {
        match self {
            Event::Probed { written, now } => EventModel::Probed {
                written: moment(*written),
                now: *now as int,
            },
            Event::Fetched(outcome) => EventModel::Fetched(outcome@),
            Event::Committed => EventModel::Committed,
            Event::Failed => EventModel::Failed,
        }
    }
}

/// The address under which clients get the stored document of a date.
pub open spec fn public_link(base: Seq<char>, date: Ymd) -> Seq<char> {
    base + "/files/"@ + artifact_name(date)
}

/// The answer that the document of `key` is ready.
pub open spec fn ready(cfg: ConfigModel, key: Ymd) -> ResultModel {
    ResultModel::Ready { key, link: public_link(cfg.public_base, key) }
}

pub open spec fn maintenance_message(request: RequestModel) -> Seq<char> {
    match request {
        RequestModel::Explicit { .. } =>
            "Skrót jest tymczasowo niedostępny przez zmiany w systemie szkoły. Próbujemy znaleźć rozwiązanie problemu. Nie będzie wymagać aktualizacji skrótu."@,
        RequestModel::Relative { .. } =>
            "Skrót jest tymczasowo niedostępny. Próbujemy znaleźć rozwiązanie problemu."@,
    }
}

pub open spec fn not_published_message(key: Ymd) -> Seq<char> {
    "Nie ma zastępstw na dzień "@ + key_text(key) + ". Spróbuj ponownie później!"@
}

pub open spec fn offline_message() -> Seq<char> {
    "Strona szkoły jest offline! Spróbuj ponownie później!"@
}

pub open spec fn status_message(code: u16) -> Seq<char> {
    "Server zwrócił nieznany status "@ + decimal(code as int) + ". Spróbuj ponownie później!"@
}

/// Why a request is turned down when upstream did not send the document of
/// `key` and none is stored.
pub open spec fn failure(key: Ymd, outcome: OutcomeModel) -> RejectionModel {
    match outcome {
        OutcomeModel::NotYetPublished => RejectionModel {
            kind: RejectKind::NotFound,
            message: not_published_message(key),
        },
        OutcomeModel::UpstreamError(code) => RejectionModel {
            kind: RejectKind::ServiceUnavailable,
            message: status_message(code),
        },
        _ => RejectionModel { kind: RejectKind::ServiceUnavailable, message: offline_message() },
    }
}

/// How the handling of a request opens. In maintenance every request is
/// turned down at once. Otherwise a request that resolves to a date has the
/// store looked at for that date, and one that does not is turned down.
pub open spec fn opening(cfg: ConfigModel, request: RequestModel, today: Ymd) -> (
    PhaseModel,
    ActionModel,
) {
    if cfg.maintenance {
        (
            PhaseModel::Finished,
            ActionModel::Reply(
                ResultModel::Rejected(
                    RejectionModel {
                        kind: RejectKind::ServiceUnavailable,
                        message: maintenance_message(request),
                    },
                ),
            ),
        )
    } else {
        match resolution(request, today, cfg.calendar) {
            Ok(key) => (PhaseModel::Probing { key }, ActionModel::Probe { key }),
            Err(rejection) => (
                PhaseModel::Finished,
                ActionModel::Reply(ResultModel::Rejected(rejection)),
            ),
        }
    }
}

/// What follows a look at the store: a fresh document is served, and for
/// any other state of the store upstream is asked.
pub open spec fn after_probe(cfg: ConfigModel, key: Ymd, written: Option<int>, now: int) -> (
    PhaseModel,
    ActionModel,
) {
    if cache_state(written, now, cfg.ttl) == CacheState::Fresh {
        (PhaseModel::Finished, ActionModel::Reply(ready(cfg, key)))
    } else {
        (
            PhaseModel::Fetching { key, prior: written },
            ActionModel::Fetch { key, url: upstream_url(cfg.upstream_base, key) },
        )
    }
}

/// What follows an attempt at upstream: a document that came is stored;
/// without one, the stored document is served if there is one, and the
/// request is turned down if there is none.
pub open spec fn after_fetch(
    cfg: ConfigModel,
    key: Ymd,
    prior: Option<int>,
    outcome: OutcomeModel,
) -> (PhaseModel, ActionModel) {
    match outcome {
        OutcomeModel::Success(bytes) => (
            PhaseModel::Committing { key },
            ActionModel::Commit {
                key,
                bytes,
                archive: match prior {
                    Some(written) => if cfg.keep_replaced {
                        Some(archive_name(key, written))
                    } else {
                        None
                    },
                    None => None,
                },
            },
        ),
        _ => (
            PhaseModel::Finished,
            ActionModel::Reply(
                if prior is Some {
                    ready(cfg, key)
                } else {
                    ResultModel::Rejected(failure(key, outcome))
                },
            ),
        ),
    }
}

/// The next phase and the next action, given the phase and what came of the
/// action before. An event that does not answer the action of the phase ends
/// the request with an internal error.
pub open spec fn step_model(cfg: ConfigModel, phase: PhaseModel, event: EventModel) -> (
    PhaseModel,
    ActionModel,
) {
    match (phase, event) {
        (PhaseModel::Probing { key }, EventModel::Probed { written, now }) => after_probe(
            cfg,
            key,
            written,
            now,
        ),
        (PhaseModel::Fetching { key, prior }, EventModel::Fetched(outcome)) => after_fetch(
            cfg,
            key,
            prior,
            outcome,
        ),
        (PhaseModel::Committing { key }, EventModel::Committed) => (
            PhaseModel::Finished,
            ActionModel::Reply(ready(cfg, key)),
        ),
        _ => (PhaseModel::Finished, ActionModel::Abort),
    }
}

/// The code that stands for an answer: 200 for a document that is ready, 404
/// where nothing is published, 422 for a date that cannot be asked for, 500
/// where the service is unavailable.
pub open spec fn result_code(result: ResultModel) -> u16 {
    match result {
        ResultModel::Ready { .. } => 200,
        ResultModel::Rejected(rejection) => match rejection.kind {
            RejectKind::NotFound => 404,
            RejectKind::ServiceUnavailable => 500,
            _ => 422,
        },
    }
}

impl Config {
    /// A configuration with the given addresses, a time to live of thirty
    /// minutes, the winter break as the only closed range, and neither
    /// maintenance nor keeping of replaced documents.
    pub fn new(upstream_base: &str, public_base: &str) -> (cfg: Config)
        ensures
            cfg@ == (ConfigModel {
                ttl: DEFAULT_TTL as int,
                maintenance: false,
                upstream_base: upstream_base@,
                public_base: public_base@,
                calendar: BlackoutCalendar::winter_break_model(),
                keep_replaced: false,
            }),
    {
        Config {
            ttl: DEFAULT_TTL,
            maintenance: false,
            upstream_base: upstream_base.to_owned(),
            public_base: public_base.to_owned(),
            calendar: BlackoutCalendar::winter_break(),
            keep_replaced: false,
        }
    }
}

impl RequestResult {
    /// The code that stands for the answer.
    pub fn code(&self) -> (code: u16)
        ensures
            code == result_code(self@),
    {
        match self {
            RequestResult::Ready { .. } => 200,
            RequestResult::Rejected(rejection) => match rejection.kind {
                RejectKind::NotFound => 404,
                RejectKind::ServiceUnavailable => 500,
                _ => 422,
            },
        }
    }

    /// The key of the document that is ready, or nothing for a request that
    /// is turned down.
    pub fn served_key(&self) -> (key: Option<&DateKey>)
        ensures
            match self@ {
                ResultModel::Ready { key: date, .. } => key matches Some(k) && k@ == date,
                ResultModel::Rejected(_) => key is None,
            },
    {
        match self {
            RequestResult::Ready { key, .. } => Some(key),
            RequestResult::Rejected(_) => None,
        }
    }
}

fn make_ready(cfg: &Config, key: DateKey) -> (result: RequestResult)
    ensures
        result@ == ready(cfg@, key@),
{
    let mut link = cfg.public_base.clone();
    link.append("/files/");
    link.append(key.artifact_name().as_str());
    RequestResult::Ready { key, link }
}

fn make_failure(key: &DateKey, outcome: &FetchOutcome) -> (rejection: Rejection)
    ensures
        rejection@ == failure(key@, outcome@),
{
    match outcome {
        FetchOutcome::NotYetPublished => {
            let mut message = "Nie ma zastępstw na dzień ".to_owned();
            message.append(key.as_str());
            message.append(". Spróbuj ponownie później!");
            Rejection { kind: RejectKind::NotFound, message }
        },
        FetchOutcome::UpstreamError(code) => {
            let mut message = "Server zwrócił nieznany status ".to_owned();
            append_decimal(&mut message, *code as i64);
            message.append(". Spróbuj ponownie później!");
            Rejection { kind: RejectKind::ServiceUnavailable, message }
        },
        _ => Rejection {
            kind: RejectKind::ServiceUnavailable,
            message: "Strona szkoły jest offline! Spróbuj ponownie później!".to_owned(),
        },
    }
}

fn make_maintenance(request: &Request) -> (rejection: Rejection)
    ensures
        rejection@ == (RejectionModel {
            kind: RejectKind::ServiceUnavailable,
            message: maintenance_message(request@),
        }),
{
    let message = match request {
        Request::Explicit { .. } =>
            "Skrót jest tymczasowo niedostępny przez zmiany w systemie szkoły. Próbujemy znaleźć rozwiązanie problemu. Nie będzie wymagać aktualizacji skrótu.",
        Request::Relative { .. } =>
            "Skrót jest tymczasowo niedostępny. Próbujemy znaleźć rozwiązanie problemu.",
    };
    Rejection { kind: RejectKind::ServiceUnavailable, message: message.to_owned() }
}

/// Opens the handling of a request on the day `today`.
pub fn begin(cfg: &Config, request: &Request, today: CalendarDate) -> (first: (Phase, Action))
    ensures
        first.0@ == opening(cfg@, request@, today@).0,
        first.1@ == opening(cfg@, request@, today@).1,
{
    if cfg.maintenance {
        (Phase::Finished, Action::Reply(RequestResult::Rejected(make_maintenance(request))))
    } else {
        match resolve(request, today, &cfg.calendar) {
            Ok(key) => {
                let asked = key.clone();
                (Phase::Probing { key }, Action::Probe { key: asked })
            },
            Err(rejection) => (Phase::Finished, Action::Reply(RequestResult::Rejected(rejection))),
        }
    }
}

/// Decides what follows a look at the store.
pub fn on_probed(
    cfg: &Config,
    key: DateKey,
    written: Option<i64>,
    now: i64,
) -> (next: (Phase, Action))
    ensures
        next.0@ == after_probe(cfg@, key@, moment(written), now as int).0,
        next.1@ == after_probe(cfg@, key@, moment(written), now as int).1,
{
    match probe(written, now, cfg.ttl) {
        CacheState::Fresh => (Phase::Finished, Action::Reply(make_ready(cfg, key))),
        _ => {
            let url = url_for(cfg.upstream_base.as_str(), &key);
            let asked = key.clone();
            (Phase::Fetching { key, prior: written }, Action::Fetch { key: asked, url })
        },
    }
}

/// Decides what follows an attempt at upstream.
pub fn on_fetched(
    cfg: &Config,
    key: DateKey,
    prior: Option<i64>,
    outcome: FetchOutcome,
) -> (next: (Phase, Action))
    ensures
        next.0@ == after_fetch(cfg@, key@, moment(prior), outcome@).0,
        next.1@ == after_fetch(cfg@, key@, moment(prior), outcome@).1,
{
    match outcome {
        FetchOutcome::Success(bytes) => {
            let archive = match prior {
                Some(written) => if cfg.keep_replaced {
                    Some(key.archive_name(written))
                } else {
                    None
                },
                None => None,
            };
            let stored = key.clone();
            (Phase::Committing { key }, Action::Commit { key: stored, bytes, archive })
        },
        other => {
            let result = match prior {
                Some(_) => make_ready(cfg, key),
                None => RequestResult::Rejected(make_failure(&key, &other)),
            };
            (Phase::Finished, Action::Reply(result))
        },
    }
}

/// Takes the handling of a request one step further: from the phase it is in
/// and what came of the action asked for, to the next phase and action.
pub fn step(cfg: &Config, phase: Phase, event: Event) -> (next: (Phase, Action))
    ensures
        next.0@ == step_model(cfg@, phase@, event@).0,
        next.1@ == step_model(cfg@, phase@, event@).1,
{
    match (phase, event) {
        (Phase::Probing { key }, Event::Probed { written, now }) => on_probed(
            cfg,
            key,
            written,
            now,
        ),
        (Phase::Fetching { key, prior }, Event::Fetched(outcome)) => on_fetched(
            cfg,
            key,
            prior,
            outcome,
        ),
        (Phase::Committing { key }, Event::Committed) => (
            Phase::Finished,
            Action::Reply(make_ready(cfg, key)),
        ),
        _ => (Phase::Finished, Action::Abort),
    }
}

} // verus!
