use scroll_export::error::ExportError;
use scroll_export::extract::extract_search_result;
use scroll_export::json::Json;
use scroll_export::query::{plan_continue, plan_search};
use scroll_export::release::{release_body, release_outcome};
use scroll_export::retry::{after_attempt, Verdict};
use scroll_export::session::{Event, Phase, Session, Step};

/// A backend that holds `documents` documents and never changes.
struct Backend {
    documents: u64,
    size: u64,
    served: u64,
    cursors: u64,
    searches: u32,
    continuations: u32,
    releases: Vec<String>,
    failing: u32,
}

impl Backend {
    fn new(documents: u64) -> Backend {
        Backend {
            documents,
            size: 0,
            served: 0,
            cursors: 0,
            searches: 0,
            continuations: 0,
            releases: Vec::new(),
            failing: 0,
        }
    }

    fn page(&mut self) -> Json {
        let upto = std::cmp::min(self.documents, self.served + self.size);
        let docs: Vec<Json> = (self.served..upto)
            .map(|id| Json::Object(vec![("_id".to_string(), Json::Unsigned(id))]))
            .collect();
        self.served = upto;
        self.cursors += 1;
        Json::Object(vec![
            ("_scroll_id".to_string(), Json::Text(format!("cursor-{}", self.cursors))),
            (
                "hits".to_string(),
                Json::Object(vec![
                    (
                        "total".to_string(),
                        Json::Object(vec![("value".to_string(), Json::Unsigned(self.documents))]),
                    ),
                    ("hits".to_string(), Json::Array(docs)),
                ]),
            ),
        ])
    }

    fn search(&mut self, size: i64) -> Json {
        self.searches += 1;
        self.size = size as u64;
        self.page()
    }

    fn scroll(&mut self, token: &str) -> Json {
        self.continuations += 1;
        assert_eq!(token, format!("cursor-{}", self.cursors));
        if self.failing > 0 {
            self.failing -= 1;
            return Json::Object(vec![(
                "error".to_string(),
                Json::Object(vec![("type".to_string(), Json::Text("x".to_string()))]),
            )]);
        }
        self.page()
    }

    fn clear(&mut self, body: Json) -> u16 {
        match body.take("scroll_id") {
            Some(Json::Text(token)) => self.releases.push(token),
            other => panic!("unexpected body: {:?}", other),
        }
        200
    }
}

/// Exports everything and gives the batch lengths, the totals, and the
/// final session.
fn export(
    backend: &mut Backend,
    query: &str,
    batch_size: usize,
    max_retries: i32,
) -> Result<(Vec<usize>, Vec<u64>, Session), ExportError> {
    let request = plan_search("docs", query, batch_size)?;
    let (token, batch, total) = extract_search_result(backend.search(request.params.size))?;
    let mut lengths = vec![batch.len()];
    let mut totals = vec![total];
    let mut session = Session::open(token, batch.len(), total);
    loop {
        match session.next_step() {
            Step::Continue => {
                let mut remaining = max_retries;
                let mut attempt = plan_continue(&session.token);
                let result = loop {
                    let outcome = extract_search_result(backend.scroll(&attempt.scroll_id));
                    match after_attempt(attempt, remaining, outcome) {
                        Verdict::Done(result) => break result,
                        Verdict::Again { remaining: left, next, .. } => {
                            remaining = left;
                            attempt = next;
                        }
                    }
                };
                let event = match result {
                    Ok((token, batch, total)) => {
                        lengths.push(batch.len());
                        totals.push(total);
                        Event::Page { token, len: batch.len(), total }
                    }
                    Err(_) => Event::ContinuationFailed,
                };
                session = session.advance(event);
            }
            Step::Release => {
                let status = backend.clear(release_body(session.token.clone()));
                assert_eq!(release_outcome(Some(status)), Ok(()));
                session = session.advance(Event::ReleaseAttempted);
            }
            Step::Stop => return Ok((lengths, totals, session)),
        }
    }
}

#[test]
fn five_documents_in_batches_of_two() {
    let mut backend = Backend::new(5);
    let (lengths, totals, session) = export(&mut backend, "{\"match_all\": {}}", 2, 3).unwrap();
    assert_eq!(lengths, vec![2, 2, 1, 0]);
    assert_eq!(totals, vec![5, 5, 5, 5]);
    assert_eq!(session.phase, Phase::Released);
    assert_eq!(session.seen, 5);
    assert_eq!(session.total, 5);
    assert_eq!(session.releases, 1);
    assert_eq!(backend.releases, vec!["cursor-4".to_string()]);
    assert_eq!(backend.searches, 1);
    assert_eq!(backend.continuations, 3);
}

#[test]
fn every_batch_is_within_the_batch_size_and_all_add_up() {
    for (documents, size) in [(0u64, 3usize), (1, 1), (6, 3), (7, 3), (10, 1), (4, 50)] {
        let mut backend = Backend::new(documents);
        let (lengths, totals, session) = export(&mut backend, "{}", size, 0).unwrap();
        assert!(lengths.iter().all(|len| *len <= size));
        assert_eq!(lengths.iter().sum::<usize>() as u64, documents);
        assert_eq!(*lengths.last().unwrap(), 0);
        assert_eq!(lengths.iter().filter(|len| **len == 0).count(), 1);
        assert!(totals.iter().all(|total| *total == documents));
        assert_eq!(session.seen, documents);
        assert_eq!(backend.releases.len(), 1);
    }
}

#[test]
fn malformed_query_fails_before_any_call() {
    let mut backend = Backend::new(5);
    let got = export(&mut backend, "{not json", 2, 3);
    assert!(matches!(got, Err(ExportError::MalformedQuery(_))));
    assert_eq!(backend.searches, 0);
    assert_eq!(backend.continuations, 0);
    assert!(backend.releases.is_empty());
}

#[test]
fn transient_failures_within_the_budget_lose_nothing() {
    let mut backend = Backend::new(5);
    backend.failing = 2;
    let (lengths, _, session) = export(&mut backend, "{}", 2, 2).unwrap();
    assert_eq!(lengths, vec![2, 2, 1, 0]);
    assert_eq!(session.seen, 5);
    assert_eq!(backend.continuations, 5);
    assert_eq!(backend.releases.len(), 1);
}

#[test]
fn failure_beyond_the_budget_ends_in_one_release() {
    let mut backend = Backend::new(5);
    backend.failing = 3;
    let (lengths, _, session) = export(&mut backend, "{}", 2, 2).unwrap();
    assert_eq!(lengths, vec![2]);
    assert_eq!(session.phase, Phase::Released);
    assert_eq!(session.seen, 2);
    assert_eq!(session.releases, 1);
    assert_eq!(backend.continuations, 3);
    assert_eq!(backend.releases, vec!["cursor-1".to_string()]);
}

#[test]
fn session_opens_queried_or_exhausted() {
    let opened = Session::open("t".to_string(), 3, 10);
    assert_eq!(
        opened,
        Session { phase: Phase::Queried, token: "t".to_string(), total: 10, seen: 3, releases: 0 }
    );
    assert_eq!(opened.next_step(), Step::Continue);
    let empty = Session::open("t".to_string(), 0, 0);
    assert_eq!(empty.phase, Phase::Exhausted);
    assert_eq!(empty.next_step(), Step::Release);
}

#[test]
fn page_replaces_the_token_and_is_counted() {
    let session = Session::open("t1".to_string(), 3, 10);
    let session = session.advance(Event::Page { token: "t2".to_string(), len: 4, total: 11 });
    assert_eq!(
        session,
        Session { phase: Phase::Continuing, token: "t2".to_string(), total: 11, seen: 7, releases: 0 }
    );
    let session = session.advance(Event::Page { token: "t3".to_string(), len: 0, total: 11 });
    assert_eq!(
        session,
        Session { phase: Phase::Exhausted, token: "t3".to_string(), total: 11, seen: 7, releases: 0 }
    );
    assert_eq!(session.next_step(), Step::Release);
}

#[test]
fn failed_continuation_keeps_the_token() {
    let session = Session::open("t1".to_string(), 3, 10).advance(Event::ContinuationFailed);
    assert_eq!(
        session,
        Session { phase: Phase::Failed, token: "t1".to_string(), total: 10, seen: 3, releases: 0 }
    );
    assert_eq!(session.next_step(), Step::Release);
    let session = session.advance(Event::ReleaseAttempted);
    assert_eq!(session.phase, Phase::Released);
    assert_eq!(session.releases, 1);
    assert_eq!(session.next_step(), Step::Stop);
}

#[test]
fn events_out_of_place_change_nothing() {
    let active = Session::open("t".to_string(), 1, 1).advance(Event::ReleaseAttempted);
    assert_eq!(active, Session::open("t".to_string(), 1, 1));
    let ended = Session::open("t".to_string(), 0, 0)
        .advance(Event::Page { token: "u".to_string(), len: 2, total: 2 })
        .advance(Event::ContinuationFailed);
    assert_eq!(ended, Session::open("t".to_string(), 0, 0));
    let released = Session::open("t".to_string(), 0, 0).advance(Event::ReleaseAttempted);
    let again = Session::open("t".to_string(), 0, 0)
        .advance(Event::ReleaseAttempted)
        .advance(Event::ReleaseAttempted)
        .advance(Event::Page { token: "u".to_string(), len: 2, total: 2 })
        .advance(Event::ContinuationFailed);
    assert_eq!(again, released);
    assert_eq!(again.releases, 1);
}

#[test]
fn count_of_documents_stops_at_the_largest_number() {
    let mut session = Session::open("t".to_string(), 1, 1);
    session.seen = u64::MAX - 1;
    let session = session.advance(Event::Page { token: "u".to_string(), len: 5, total: 1 });
    assert_eq!(session.seen, u64::MAX);
}
