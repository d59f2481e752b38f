use cargo_pros::resolver::{start, step, Action, Event, Resolver, Source, Strategy};
use cargo_pros::template::{CacheRecord, Template};

fn sha(text: &str) -> Option<String> {
    Some(text.to_string())
}

fn bundled() -> Vec<u8> {
    vec![0xb0, 0xb1]
}

fn cached(fingerprint: Option<&str>) -> CacheRecord {
    CacheRecord { data: Some(vec![0xc0]), sha: fingerprint.map(str::to_string) }
}

fn drive(download: bool, events: Vec<Event>) -> Vec<Action> {
    let (mut state, first) = start(Strategy::Network, download, bundled());
    let mut actions = vec![first];
    for event in events {
        let (next, action) = step(state, event);
        state = next;
        actions.push(action);
    }
    actions
}

fn downloads(actions: &[Action]) -> usize {
    actions.iter().filter(|action| matches!(action, Action::DownloadArchive)).count()
}

#[test]
fn offline_strategy_uses_the_bundled_archive_at_once() {
    let (state, action) = start(Strategy::Offline, true, bundled());
    assert_eq!(state, Resolver::Finished);
    assert_eq!(action, Action::Use { template: Template { data: bundled(), sha: None }, source: Source::Bundled, store: false, warn: false });
}

#[test]
fn network_strategy_starts_with_the_cache() {
    let (state, action) = start(Strategy::Network, true, bundled());
    assert_eq!(state, Resolver::ReadingCache { download: true, bundled: bundled() });
    assert_eq!(action, Action::ReadCache);
}

#[test]
fn without_refresh_the_cache_is_used_as_it_is() {
    let actions = drive(false, vec![Event::CacheRead(cached(Some("f1")))]);
    assert_eq!(
        actions,
        vec![
            Action::ReadCache,
            Action::Use { template: Template { data: vec![0xc0], sha: sha("f1") }, source: Source::Cache, store: false, warn: false },
        ]
    );
}

#[test]
fn without_refresh_and_without_cache_the_bundled_archive_is_used() {
    let actions = drive(false, vec![Event::CacheRead(CacheRecord { data: None, sha: sha("f1") })]);
    assert_eq!(
        actions,
        vec![
            Action::ReadCache,
            Action::Use { template: Template { data: bundled(), sha: None }, source: Source::Bundled, store: false, warn: false },
        ]
    );
}

#[test]
fn current_cache_is_used_without_download() {
    let actions = drive(true, vec![Event::CacheRead(cached(Some("f1"))), Event::Fingerprint(sha("f1"))]);
    assert_eq!(
        actions,
        vec![
            Action::ReadCache,
            Action::FetchFingerprint,
            Action::Use { template: Template { data: vec![0xc0], sha: sha("f1") }, source: Source::Cache, store: false, warn: false },
        ]
    );
    assert_eq!(downloads(&actions), 0);
}

#[test]
fn stale_cache_is_replaced_by_one_download() {
    let actions = drive(
        true,
        vec![
            Event::CacheRead(cached(Some("f1"))),
            Event::Fingerprint(sha("f2")),
            Event::Archive(Some(vec![0xd0, 0xd1])),
            Event::Fingerprint(sha("f2")),
        ],
    );
    assert_eq!(
        actions,
        vec![
            Action::ReadCache,
            Action::FetchFingerprint,
            Action::DownloadArchive,
            Action::FetchFingerprint,
            Action::Use { template: Template { data: vec![0xd0, 0xd1], sha: sha("f2") }, source: Source::Download, store: true, warn: false },
        ]
    );
    assert_eq!(downloads(&actions), 1);
}

#[test]
fn stale_cache_is_used_when_the_download_fails() {
    let actions = drive(
        true,
        vec![Event::CacheRead(cached(Some("f1"))), Event::Fingerprint(sha("f2")), Event::Archive(None)],
    );
    assert_eq!(
        actions,
        vec![
            Action::ReadCache,
            Action::FetchFingerprint,
            Action::DownloadArchive,
            Action::Use { template: Template { data: vec![0xc0], sha: sha("f1") }, source: Source::StaleCache, store: false, warn: true },
        ]
    );
}

#[test]
fn bundled_archive_is_the_last_resort() {
    let actions = drive(
        true,
        vec![Event::CacheRead(CacheRecord { data: None, sha: None }), Event::Fingerprint(None), Event::Archive(None)],
    );
    assert_eq!(
        actions.last(),
        Some(&Action::Use { template: Template { data: bundled(), sha: None }, source: Source::Bundled, store: false, warn: true })
    );
    assert_eq!(downloads(&actions), 1);
}

#[test]
fn failed_fingerprint_request_leads_to_a_download() {
    let actions = drive(true, vec![Event::CacheRead(cached(Some("f1"))), Event::Fingerprint(None)]);
    assert_eq!(actions.last(), Some(&Action::DownloadArchive));
}

#[test]
fn cache_of_unknown_fingerprint_leads_to_a_download_and_serves_as_fallback() {
    let actions = drive(
        true,
        vec![Event::CacheRead(cached(None)), Event::Fingerprint(sha("f2")), Event::Archive(None)],
    );
    assert_eq!(
        actions[2..],
        [
            Action::DownloadArchive,
            Action::Use { template: Template { data: vec![0xc0], sha: None }, source: Source::StaleCache, store: false, warn: true },
        ]
    );
}

#[test]
fn fresh_archive_without_fingerprint_is_stored_without_one() {
    let actions = drive(
        true,
        vec![
            Event::CacheRead(CacheRecord { data: None, sha: None }),
            Event::Fingerprint(None),
            Event::Archive(Some(vec![0xd0])),
            Event::Fingerprint(None),
        ],
    );
    assert_eq!(
        actions.last(),
        Some(&Action::Use { template: Template { data: vec![0xd0], sha: None }, source: Source::Download, store: true, warn: false })
    );
}

#[test]
fn events_that_answer_nothing_change_nothing() {
    let (state, _) = start(Strategy::Network, true, bundled());
    let (state, action) = step(state, Event::Fingerprint(sha("f1")));
    assert_eq!(action, Action::Idle);
    assert_eq!(state, Resolver::ReadingCache { download: true, bundled: bundled() });
    let (state, action) = step(state, Event::Archive(Some(vec![1])));
    assert_eq!(action, Action::Idle);
    let (state, _) = step(state, Event::CacheRead(cached(Some("f1"))));
    let (state, action) = step(state, Event::CacheRead(cached(Some("f9"))));
    assert_eq!(action, Action::Idle);
    assert_eq!(
        state,
        Resolver::AwaitingFingerprint { cached: Some(Template { data: vec![0xc0], sha: sha("f1") }), bundled: bundled() }
    );
}

#[test]
fn finished_resolution_stays_finished() {
    let (state, _) = start(Strategy::Offline, false, bundled());
    for event in [Event::CacheRead(cached(None)), Event::Fingerprint(None), Event::Archive(Some(vec![1]))] {
        assert_eq!(step(state.clone(), event), (Resolver::Finished, Action::Idle));
    }
}

#[test]
fn no_run_downloads_twice() {
    let pool = [
        Event::CacheRead(cached(Some("f1"))),
        Event::Fingerprint(sha("f1")),
        Event::Fingerprint(sha("f2")),
        Event::Fingerprint(None),
        Event::Archive(None),
        Event::Archive(Some(vec![1])),
    ];
    for a in 0..pool.len() {
        for b in 0..pool.len() {
            for c in 0..pool.len() {
                for d in 0..pool.len() {
                    let events = vec![pool[a].clone(), pool[b].clone(), pool[c].clone(), pool[d].clone()];
                    assert!(downloads(&drive(true, events)) <= 1);
                }
            }
        }
    }
}

#[test]
fn resolution_follows_the_priority_order() {
    let records = [
        CacheRecord { data: None, sha: None },
        CacheRecord { data: None, sha: sha("f1") },
        cached(None),
        cached(Some("f1")),
    ];
    let fingerprints = [None, sha("f1"), sha("f2")];
    let archives = [None, Some(vec![0xd0])];
    for download in [false, true] {
        for record in &records {
            for remote in &fingerprints {
                for archive in &archives {
                    for fresh in &fingerprints {
                        let held = record.data.clone().map(|data| Template { data, sha: record.sha.clone() });
                        let current = held.as_ref().is_some_and(|held| held.sha.is_some() && held.sha == *remote);
                        let fallback = |source: Source, warn: bool| match &held {
                            Some(template) => Action::Use { template: template.clone(), source, store: false, warn },
                            None => Action::Use {
                                template: Template { data: bundled(), sha: None },
                                source: Source::Bundled,
                                store: false,
                                warn,
                            },
                        };
                        let (events, expected) = if !download {
                            (vec![Event::CacheRead(record.clone())], fallback(Source::Cache, false))
                        } else if current {
                            (
                                vec![Event::CacheRead(record.clone()), Event::Fingerprint(remote.clone())],
                                fallback(Source::Cache, false),
                            )
                        } else if let Some(data) = archive {
                            (
                                vec![
                                    Event::CacheRead(record.clone()),
                                    Event::Fingerprint(remote.clone()),
                                    Event::Archive(Some(data.clone())),
                                    Event::Fingerprint(fresh.clone()),
                                ],
                                Action::Use {
                                    template: Template { data: data.clone(), sha: fresh.clone() },
                                    source: Source::Download,
                                    store: true,
                                    warn: false,
                                },
                            )
                        } else {
                            (
                                vec![
                                    Event::CacheRead(record.clone()),
                                    Event::Fingerprint(remote.clone()),
                                    Event::Archive(None),
                                ],
                                fallback(Source::StaleCache, true),
                            )
                        };
                        let actions = drive(download, events);
                        assert_eq!(actions.last(), Some(&expected));
                        assert!(actions[..actions.len() - 1].iter().all(|action| !matches!(action, Action::Use { .. } | Action::Idle)));
                    }
                }
            }
        }
    }
}
