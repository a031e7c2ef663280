use schedule_mirror::blackout::BlackoutCalendar;
use schedule_mirror::calendar::CalendarDate;
use schedule_mirror::key::DateKey;
use schedule_mirror::resolver::{RejectKind, Rejection, Request};
use schedule_mirror::session::{
    begin, on_fetched, on_probed, step, Action, Config, Event, Phase, RequestResult,
};
use schedule_mirror::store::DEFAULT_TTL;
use schedule_mirror::upstream::FetchOutcome;
use std::collections::HashMap;

const UPSTREAM: &str = "https://zastepstwa.zschie.pl/pliki/";
const PUBLIC: &str = "https://zastepstwa.ducky.pics";
const LINK: &str = "https://zastepstwa.ducky.pics/files/05.03.2024.pdf";
const URL: &str = "https://zastepstwa.zschie.pl/pliki/05.03.2024.pdf";

/// A store and an upstream that do what the engine asks, and count.
struct Surroundings {
    files: HashMap<String, (Vec<u8>, i64)>,
    now: i64,
    upstream: FetchOutcome,
    probes: u32,
    fetches: u32,
    writes: u32,
    fetched_from: Vec<String>,
}

impl Surroundings {
    fn new(now: i64, upstream: FetchOutcome) -> Surroundings {
        Surroundings {
            files: HashMap::new(),
            now,
            upstream,
            probes: 0,
            fetches: 0,
            writes: 0,
            fetched_from: Vec::new(),
        }
    }

    fn with_file(mut self, name: &str, bytes: &[u8], written: i64) -> Surroundings {
        self.files.insert(name.to_string(), (bytes.to_vec(), written));
        self
    }

    fn perform(&mut self, action: &Action) -> Option<Event> {
        match action {
            Action::Probe { key } => {
                self.probes += 1;
                let written = self.files.get(&key.artifact_name()).map(|file| file.1);
                Some(Event::Probed { written, now: self.now })
            }
            Action::Fetch { url, .. } => {
                self.fetches += 1;
                self.fetched_from.push(url.clone());
                Some(Event::Fetched(self.upstream.clone()))
            }
            Action::Commit { key, bytes, archive } => {
                self.writes += 1;
                if let Some(name) = archive {
                    let old = self.files.get(&key.artifact_name()).unwrap().clone();
                    self.files.insert(name.clone(), old);
                }
                self.files.insert(key.artifact_name(), (bytes.clone(), self.now));
                Some(Event::Committed)
            }
            Action::Reply(_) | Action::Abort => None,
        }
    }

    fn run(&mut self, cfg: &Config, request: &Request, today: CalendarDate) -> Action {
        let (mut phase, mut action) = begin(cfg, request, today);
        for _ in 0..10 {
            match self.perform(&action) {
                Some(event) => {
                    let next = step(cfg, phase, event);
                    phase = next.0;
                    action = next.1;
                }
                None => {
                    assert_eq!(phase, Phase::Finished);
                    return action;
                }
            }
        }
        panic!("the exchange did not end");
    }
}

fn config() -> Config {
    Config::new(UPSTREAM, PUBLIC)
}

fn today() -> CalendarDate {
    CalendarDate::from_ymd(2024, 3, 4).unwrap()
}

fn key() -> DateKey {
    DateKey::from_components(5, 3, 2024).unwrap()
}

fn explicit() -> Request {
    Request::Explicit { day: 5, month: 3, year: 2024 }
}

fn ready() -> Action {
    Action::Reply(RequestResult::Ready { key: key(), link: LINK.to_string() })
}

fn turned_down(kind: RejectKind, message: &str) -> Action {
    Action::Reply(RequestResult::Rejected(Rejection { kind, message: message.to_string() }))
}

#[test]
fn a_new_configuration_has_the_usual_settings() {
    let cfg = config();
    assert_eq!(cfg.ttl, 1800);
    assert_eq!(cfg.ttl, DEFAULT_TTL);
    assert!(!cfg.maintenance);
    assert!(!cfg.keep_replaced);
    assert_eq!(cfg.upstream_base, UPSTREAM);
    assert_eq!(cfg.public_base, PUBLIC);
    assert_eq!(cfg.calendar, BlackoutCalendar::winter_break());
}

#[test]
fn a_request_that_resolves_opens_with_a_look_at_the_store() {
    let (phase, action) = begin(&config(), &explicit(), today());
    assert_eq!(phase, Phase::Probing { key: key() });
    assert_eq!(action, Action::Probe { key: key() });
}

#[test]
fn a_request_that_does_not_resolve_is_answered_at_once() {
    let request = Request::Explicit { day: 31, month: 11, year: 2024 };
    let (phase, action) = begin(&config(), &request, today());
    assert_eq!(phase, Phase::Finished);
    assert_eq!(action, turned_down(RejectKind::InvalidDate, "Nieprawidłowa data!"));
    let request = Request::Explicit { day: 15, month: 6, year: 2024 };
    let (phase, action) = begin(&config(), &request, today());
    assert_eq!(phase, Phase::Finished);
    assert_eq!(action, turned_down(RejectKind::Weekend, "Wybrana data to weekend!"));
}

#[test]
fn tomorrow_on_a_friday_never_reaches_the_store() {
    let mut world = Surroundings::new(10_000, FetchOutcome::Success(vec![1]));
    let friday = CalendarDate::from_ymd(2024, 6, 14).unwrap();
    let request = Request::Relative { when: "tomorrow".to_string() };
    let answer = world.run(&config(), &request, friday);
    assert_eq!(
        answer,
        turned_down(RejectKind::Weekend, "Jutro jest sobota, więc nie ma zastępstw!")
    );
    assert_eq!((world.probes, world.fetches, world.writes), (0, 0, 0));
    assert!(world.files.is_empty());
}

#[test]
fn maintenance_turns_every_request_down() {
    let mut cfg = config();
    cfg.maintenance = true;
    let mut world = Surroundings::new(10_000, FetchOutcome::Success(vec![1]))
        .with_file("05.03.2024.pdf", b"old", 9_999);
    let answer = world.run(&cfg, &explicit(), today());
    assert_eq!(
        answer,
        turned_down(
            RejectKind::ServiceUnavailable,
            "Skrót jest tymczasowo niedostępny przez zmiany w systemie szkoły. Próbujemy znaleźć rozwiązanie problemu. Nie będzie wymagać aktualizacji skrótu."
        )
    );
    let request = Request::Relative { when: "today".to_string() };
    let answer = world.run(&cfg, &request, today());
    assert_eq!(
        answer,
        turned_down(
            RejectKind::ServiceUnavailable,
            "Skrót jest tymczasowo niedostępny. Próbujemy znaleźć rozwiązanie problemu."
        )
    );
    let request = Request::Explicit { day: 31, month: 11, year: 2024 };
    let (_, action) = begin(&cfg, &request, today());
    match action {
        Action::Reply(result) => assert_eq!(result.code(), 500),
        other => panic!("unexpected {:?}", other),
    }
    assert_eq!((world.probes, world.fetches, world.writes), (0, 0, 0));
}

#[test]
fn cold_cache_and_success_creates_the_artifact() {
    let mut world = Surroundings::new(10_000, FetchOutcome::Success(b"%PDF new".to_vec()));
    let answer = world.run(&config(), &explicit(), today());
    assert_eq!(answer, ready());
    assert_eq!((world.probes, world.fetches, world.writes), (1, 1, 1));
    assert_eq!(world.fetched_from, vec![URL.to_string()]);
    assert_eq!(world.files.len(), 1);
    assert_eq!(world.files["05.03.2024.pdf"], (b"%PDF new".to_vec(), 10_000));
    // The age of the artifact is 0 thereafter: the next request does not fetch.
    let answer = world.run(&config(), &explicit(), today());
    assert_eq!(answer, ready());
    assert_eq!((world.probes, world.fetches, world.writes), (2, 1, 1));
}

#[test]
fn fresh_artifact_is_served_without_fetch() {
    for age in [0, 1, 60, 1799] {
        let mut world = Surroundings::new(10_000, FetchOutcome::Success(b"new".to_vec()))
            .with_file("05.03.2024.pdf", b"old", 10_000 - age);
        let answer = world.run(&config(), &explicit(), today());
        assert_eq!(answer, ready());
        assert_eq!((world.probes, world.fetches, world.writes), (1, 0, 0));
        assert_eq!(world.files["05.03.2024.pdf"], (b"old".to_vec(), 10_000 - age));
    }
}

#[test]
fn stale_artifact_and_unreachable_upstream_serves_the_old_bytes() {
    let written = 10_000 - (DEFAULT_TTL as i64 + 60);
    let mut world = Surroundings::new(10_000, FetchOutcome::UpstreamUnreachable)
        .with_file("05.03.2024.pdf", b"old", written);
    let answer = world.run(&config(), &explicit(), today());
    assert_eq!(answer, ready());
    assert_eq!((world.probes, world.fetches, world.writes), (1, 1, 0));
    assert_eq!(world.files.len(), 1);
    assert_eq!(world.files["05.03.2024.pdf"], (b"old".to_vec(), written));
}

#[test]
fn stale_artifact_survives_every_failure() {
    for upstream in [
        FetchOutcome::NotYetPublished,
        FetchOutcome::UpstreamUnreachable,
        FetchOutcome::UpstreamError(500),
        FetchOutcome::UpstreamError(403),
    ] {
        let mut world = Surroundings::new(10_000, upstream)
            .with_file("05.03.2024.pdf", b"old", 10_000 - 1800);
        let answer = world.run(&config(), &explicit(), today());
        assert_eq!(answer, ready());
        assert_eq!((world.probes, world.fetches, world.writes), (1, 1, 0));
        assert_eq!(world.files["05.03.2024.pdf"], (b"old".to_vec(), 8_200));
    }
}

#[test]
fn stale_artifact_and_success_replaces_the_bytes() {
    let mut world = Surroundings::new(10_000, FetchOutcome::Success(b"new".to_vec()))
        .with_file("05.03.2024.pdf", b"old", 8_200);
    let answer = world.run(&config(), &explicit(), today());
    assert_eq!(answer, ready());
    assert_eq!((world.probes, world.fetches, world.writes), (1, 1, 1));
    assert_eq!(world.files.len(), 1);
    assert_eq!(world.files["05.03.2024.pdf"], (b"new".to_vec(), 10_000));
}

#[test]
fn cold_cache_and_not_yet_published_is_not_found() {
    let mut world = Surroundings::new(10_000, FetchOutcome::NotYetPublished);
    let answer = world.run(&config(), &explicit(), today());
    assert_eq!(
        answer,
        turned_down(
            RejectKind::NotFound,
            "Nie ma zastępstw na dzień 05.03.2024. Spróbuj ponownie później!"
        )
    );
    assert_eq!((world.probes, world.fetches, world.writes), (1, 1, 0));
    assert!(world.files.is_empty());
}

#[test]
fn cold_cache_and_broken_upstream_is_service_unavailable() {
    let mut world = Surroundings::new(10_000, FetchOutcome::UpstreamUnreachable);
    let answer = world.run(&config(), &explicit(), today());
    assert_eq!(
        answer,
        turned_down(
            RejectKind::ServiceUnavailable,
            "Strona szkoły jest offline! Spróbuj ponownie później!"
        )
    );
    let mut world = Surroundings::new(10_000, FetchOutcome::UpstreamError(503));
    let answer = world.run(&config(), &explicit(), today());
    assert_eq!(
        answer,
        turned_down(
            RejectKind::ServiceUnavailable,
            "Server zwrócił nieznany status 503. Spróbuj ponownie później!"
        )
    );
    assert_eq!((world.probes, world.fetches, world.writes), (1, 1, 0));
    assert!(world.files.is_empty());
}

#[test]
fn a_replaced_artifact_is_kept_where_that_is_asked_for() {
    let mut cfg = config();
    cfg.keep_replaced = true;
    let mut world = Surroundings::new(10_000, FetchOutcome::Success(b"new".to_vec()))
        .with_file("05.03.2024.pdf", b"old", 8_200);
    let answer = world.run(&cfg, &explicit(), today());
    assert_eq!(answer, ready());
    assert_eq!(world.files.len(), 2);
    assert_eq!(world.files["05.03.2024.pdf"], (b"new".to_vec(), 10_000));
    assert_eq!(world.files["archive-05.03.2024-8200.pdf"], (b"old".to_vec(), 8_200));
    // Nothing is kept where nothing was stored.
    let mut world = Surroundings::new(10_000, FetchOutcome::Success(b"new".to_vec()));
    let answer = world.run(&cfg, &explicit(), today());
    assert_eq!(answer, ready());
    assert_eq!(world.files.len(), 1);
}

#[test]
fn after_a_look_at_the_store() {
    let cfg = config();
    let (phase, action) = on_probed(&cfg, key(), Some(1000), 2799);
    assert_eq!(phase, Phase::Finished);
    assert_eq!(action, ready());
    let (phase, action) = on_probed(&cfg, key(), Some(1000), 2800);
    assert_eq!(phase, Phase::Fetching { key: key(), prior: Some(1000) });
    assert_eq!(action, Action::Fetch { key: key(), url: URL.to_string() });
    let (phase, action) = on_probed(&cfg, key(), None, 2800);
    assert_eq!(phase, Phase::Fetching { key: key(), prior: None });
    assert_eq!(action, Action::Fetch { key: key(), url: URL.to_string() });
}

#[test]
fn after_an_attempt_at_upstream() {
    let mut cfg = config();
    let (phase, action) = on_fetched(&cfg, key(), None, FetchOutcome::Success(vec![1, 2, 3]));
    assert_eq!(phase, Phase::Committing { key: key() });
    assert_eq!(action, Action::Commit { key: key(), bytes: vec![1, 2, 3], archive: None });
    let (_, action) = on_fetched(&cfg, key(), Some(-7), FetchOutcome::Success(vec![1]));
    assert_eq!(action, Action::Commit { key: key(), bytes: vec![1], archive: None });
    cfg.keep_replaced = true;
    let (_, action) = on_fetched(&cfg, key(), Some(-7), FetchOutcome::Success(vec![1]));
    assert_eq!(
        action,
        Action::Commit {
            key: key(),
            bytes: vec![1],
            archive: Some("archive-05.03.2024--7.pdf".to_string())
        }
    );
    let (phase, action) = on_fetched(&cfg, key(), Some(5), FetchOutcome::UpstreamError(500));
    assert_eq!(phase, Phase::Finished);
    assert_eq!(action, ready());
    let (phase, action) = on_fetched(&cfg, key(), None, FetchOutcome::UpstreamError(65535));
    assert_eq!(phase, Phase::Finished);
    assert_eq!(
        action,
        turned_down(
            RejectKind::ServiceUnavailable,
            "Server zwrócił nieznany status 65535. Spróbuj ponownie później!"
        )
    );
}

#[test]
fn after_the_write_the_document_is_ready() {
    let (phase, action) = step(&config(), Phase::Committing { key: key() }, Event::Committed);
    assert_eq!(phase, Phase::Finished);
    assert_eq!(action, ready());
}

#[test]
fn an_event_that_answers_nothing_aborts() {
    let cfg = config();
    let probing = Phase::Probing { key: key() };
    let fetching = Phase::Fetching { key: key(), prior: None };
    let committing = Phase::Committing { key: key() };
    let probed = Event::Probed { written: None, now: 0 };
    let fetched = Event::Fetched(FetchOutcome::NotYetPublished);
    let cases = [
        (probing.clone(), fetched.clone()),
        (probing.clone(), Event::Committed),
        (probing.clone(), Event::Failed),
        (fetching.clone(), probed.clone()),
        (fetching.clone(), Event::Committed),
        (fetching.clone(), Event::Failed),
        (committing.clone(), probed.clone()),
        (committing.clone(), fetched.clone()),
        (committing.clone(), Event::Failed),
        (Phase::Finished, probed.clone()),
        (Phase::Finished, fetched.clone()),
        (Phase::Finished, Event::Committed),
        (Phase::Finished, Event::Failed),
    ];
    for (phase, event) in cases {
        assert_eq!(step(&cfg, phase, event), (Phase::Finished, Action::Abort));
    }
}

#[test]
fn each_answer_has_its_code() {
    let result = RequestResult::Ready { key: key(), link: LINK.to_string() };
    assert_eq!(result.code(), 200);
    let codes = [
        (RejectKind::NotFound, 404),
        (RejectKind::InvalidDate, 422),
        (RejectKind::Weekend, 422),
        (RejectKind::Blackout, 422),
        (RejectKind::ServiceUnavailable, 500),
    ];
    for (kind, code) in codes {
        let result = RequestResult::Rejected(Rejection { kind, message: String::new() });
        assert_eq!(result.code(), code);
    }
}

#[test]
fn only_a_ready_answer_names_a_document() {
    let result = RequestResult::Ready { key: key(), link: LINK.to_string() };
    assert_eq!(result.served_key(), Some(&key()));
    let result = RequestResult::Rejected(Rejection {
        kind: RejectKind::NotFound,
        message: String::new(),
    });
    assert_eq!(result.served_key(), None);
}
