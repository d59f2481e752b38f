//! Deciding which template archive a new project is made from.
//!
//! The decision needs the cache and the network, one after the other, and
//! what is asked next depends on what came back. [`step`] holds the rule:
//! it takes the state and what came back, and answers with the next state
//! and the next thing to do. Whoever drives it does the reading and the
//! requests.

use crate::template::{
    baked_in_template, cached_template, fetch_template, get_cached_template, CacheRecord,
    CacheRecordView, Template, TemplateView,
};
use crate::text::text_view;
use vstd::prelude::*;

verus! {

/// How templates are resolved.
#[derive(Debug, Clone, Copy, PartialEq, Eq)]
pub enum Strategy {
    /// Cache first, then the remote source, then the bundled archive.
    Network,
    /// The bundled archive, always.
    Offline,
}

/// Where a template was taken from.
#[derive(Debug, Clone, Copy, PartialEq, Eq, Structural)]
pub enum Source {
    /// The cache, as it is: no refresh was asked for, or the cache is
    /// current.
    Cache,
    /// A fresh download.
    Download,
    /// The cache, though it is not known to be current: the download
    /// failed.
    StaleCache,
    /// The bundled archive: the cache holds nothing, and nothing was
    /// downloaded.
    Bundled,
}

/// Where a resolution stands.
#[derive(Debug, Clone, PartialEq, Eq)]
pub enum Resolver {
    /// The cache is being read.
    ReadingCache { download: bool, bundled: Vec<u8> },
    /// The remote fingerprint was asked for, to hold it against the cache.
    AwaitingFingerprint { cached: Option<Template>, bundled: Vec<u8> },
    /// The archive is being downloaded.
    AwaitingArchive { cached: Option<Template>, bundled: Vec<u8> },
    /// The archive arrived; the fingerprint that goes with it was asked for.
    AwaitingFreshFingerprint { data: Vec<u8> },
    /// The template was handed out.
    Finished,
}

/// What came back from the outside.
#[derive(Debug, Clone, PartialEq, Eq)]
pub enum Event {
    /// The cache was read.
    CacheRead(CacheRecord),
    /// The request for the remote fingerprint ended: with the fingerprint, or
    /// without one.
    Fingerprint(Option<String>),
    /// The download ended: with the archive, or without one.
    Archive(Option<Vec<u8>>),
}

/// What to do next.
#[derive(Debug, Clone, PartialEq, Eq)]
pub enum Action {
    /// Read the cache.
    ReadCache,
    /// Ask the remote source for the fingerprint of its latest version.
    FetchFingerprint,
    /// Download the archive.
    DownloadArchive,
    /// Make the project from `template`, which was taken from `source`.
    /// Where `store` is set, write the template to the cache first; where
    /// `warn` is set, tell the user that the download failed and an older
    /// source stands in.
    Use { template: Template, source: Source, store: bool, warn: bool },
    /// Nothing: the event answered no request, or the resolution is over.
    Idle,
}

/// A [`Resolver`] as plain sequences.
pub enum ResolverView {
    ReadingCache { download: bool, bundled: Seq<u8> },
    AwaitingFingerprint { cached: Option<TemplateView>, bundled: Seq<u8> },
    AwaitingArchive { cached: Option<TemplateView>, bundled: Seq<u8> },
    AwaitingFreshFingerprint { data: Seq<u8> },
    Finished,
}

/// An [`Event`] as plain sequences.
pub enum EventView {
    CacheRead(CacheRecordView),
    Fingerprint(Option<Seq<char>>),
    Archive(Option<Seq<u8>>),
}

/// An [`Action`] as plain sequences.
pub enum ActionView {
    ReadCache,
    FetchFingerprint,
    DownloadArchive,
    Use { template: TemplateView, source: Source, store: bool, warn: bool },
    Idle,
}

impl View for Resolver {
    type V = ResolverView;

    open spec fn view(&self) -> ResolverView {
        match self {
            Resolver::ReadingCache { download, bundled } => ResolverView::ReadingCache {
                download: *download,
                bundled: bundled@,
            },
            Resolver::AwaitingFingerprint { cached, bundled } => ResolverView::AwaitingFingerprint {
                cached: crate::template::template_view(*cached),
                bundled: bundled@,
            },
            Resolver::AwaitingArchive { cached, bundled } => ResolverView::AwaitingArchive {
                cached: crate::template::template_view(*cached),
                bundled: bundled@,
            },
            Resolver::AwaitingFreshFingerprint { data } => ResolverView::AwaitingFreshFingerprint {
                data: data@,
            },
            Resolver::Finished => ResolverView::Finished,
        }
    }
}

impl View for Event {
    type V = EventView;

    open spec fn view(&self) -> EventView {
        match self {
            Event::CacheRead(record) => EventView::CacheRead(record@),
            Event::Fingerprint(sha) => EventView::Fingerprint(text_view(*sha)),
            Event::Archive(data) => EventView::Archive(crate::template::bytes_view(*data)),
        }
    }
}

impl View for Action {
    type V = ActionView;

    open spec fn view(&self) -> ActionView {
        match self {
            Action::ReadCache => ActionView::ReadCache,
            Action::FetchFingerprint => ActionView::FetchFingerprint,
            Action::DownloadArchive => ActionView::DownloadArchive,
            Action::Use { template, source, store, warn } => ActionView::Use {
                template: template@,
                source: *source,
                store: *store,
                warn: *warn,
            },
            Action::Idle => ActionView::Idle,
        }
    }
}

/// The bundled archive as a template: it has no fingerprint.
pub open spec fn bundled_template(bundled: Seq<u8>) -> TemplateView {
    TemplateView { data: bundled, sha: None }
}

/// The cached template where there is one, the bundled archive otherwise.
pub open spec fn or_bundled(cached: Option<TemplateView>, bundled: Seq<u8>) -> TemplateView {
    match cached {
        Some(template) => template,
        None => bundled_template(bundled),
    }
}

/// Where [`or_bundled`] takes its template from; `held` names the cache.
pub open spec fn or_bundled_source(cached: Option<TemplateView>, held: Source) -> Source {
    match cached {
        Some(_) => held,
        None => Source::Bundled,
    }
}

/// The cache is current: it holds a template whose fingerprint is known and
/// is the one the remote source reports now.
pub open spec fn is_current(cached: Option<TemplateView>, remote: Option<Seq<char>>) -> bool {
    match (cached, remote) {
        (Some(template), Some(current)) => template.sha == Some(current),
        _ => false,
    }
}

/// How a resolution starts.
pub open spec fn start_model(strategy: Strategy, download: bool, bundled: Seq<u8>) -> (
    ResolverView,
    ActionView,
) {
    match strategy {
        Strategy::Offline => (
            ResolverView::Finished,
            ActionView::Use {
                template: bundled_template(bundled),
                source: Source::Bundled,
                store: false,
                warn: false,
            },
        ),
        Strategy::Network => (
            ResolverView::ReadingCache { download, bundled },
            ActionView::ReadCache,
        ),
    }
}

/// The rule of the resolution, in priority order:
/// without a request to download, the cache is used as it is;
/// a cache that is current is used without a download;
/// otherwise the archive is downloaded, and used and stored if it arrives;
/// if it does not arrive, the cache is used whatever its age, with a warning;
/// and wherever the cache would be used and holds nothing, the bundled
/// archive is.
/// An event that answers no pending request changes nothing.
pub open spec fn step_model(state: ResolverView, event: EventView) -> (ResolverView, ActionView) {
    match (state, event) {
        (ResolverView::ReadingCache { download, bundled }, EventView::CacheRead(record)) => {
            let cached = cached_template(record);
            if download {
                (
                    ResolverView::AwaitingFingerprint { cached, bundled },
                    ActionView::FetchFingerprint,
                )
            } else {
                (
                    ResolverView::Finished,
                    ActionView::Use {
                        template: or_bundled(cached, bundled),
                        source: or_bundled_source(cached, Source::Cache),
                        store: false,
                        warn: false,
                    },
                )
            }
        },
        (ResolverView::AwaitingFingerprint { cached, bundled }, EventView::Fingerprint(remote)) => {
            if is_current(cached, remote) {
                (
                    ResolverView::Finished,
                    ActionView::Use {
                        template: cached->0,
                        source: Source::Cache,
                        store: false,
                        warn: false,
                    },
                )
            } else {
                (ResolverView::AwaitingArchive { cached, bundled }, ActionView::DownloadArchive)
            }
        },
        (ResolverView::AwaitingArchive { cached, bundled }, EventView::Archive(Some(data))) => (
            ResolverView::AwaitingFreshFingerprint { data },
            ActionView::FetchFingerprint,
        ),
        (ResolverView::AwaitingArchive { cached, bundled }, EventView::Archive(None)) => (
            ResolverView::Finished,
            ActionView::Use {
                template: or_bundled(cached, bundled),
                source: or_bundled_source(cached, Source::StaleCache),
                store: false,
                warn: true,
            },
        ),
        (ResolverView::AwaitingFreshFingerprint { data }, EventView::Fingerprint(remote)) => (
            ResolverView::Finished,
            ActionView::Use {
                template: TemplateView { data, sha: remote },
                source: Source::Download,
                store: true,
                warn: false,
            },
        ),
        _ => (state, ActionView::Idle),
    }
}

/// Starts a resolution. `download` says whether the caller asked for the
/// template to be refreshed; `bundled` is the archive that ships with the
/// tool.
pub fn start(strategy: Strategy, download: bool, bundled: Vec<u8>) -> (begun: (Resolver, Action))
    ensures
        (begun.0@, begun.1@) == start_model(strategy, download, bundled@),
{
    match strategy {
        Strategy::Offline => (
            Resolver::Finished,
            Action::Use {
                template: baked_in_template(bundled),
                source: Source::Bundled,
                store: false,
                warn: false,
            },
        ),
        Strategy::Network => (Resolver::ReadingCache { download, bundled }, Action::ReadCache),
    }
}

fn cached_or_bundled(
    cached: Option<Template>,
    bundled: Vec<u8>,
    held: Source,
    warn: bool,
) -> (action: Action)
    ensures
        action@ == (ActionView::Use {
            template: or_bundled(crate::template::template_view(cached), bundled@),
            source: or_bundled_source(crate::template::template_view(cached), held),
            store: false,
            warn,
        }),
{
    match cached {
        Some(template) => Action::Use { template, source: held, store: false, warn },
        None => Action::Use {
            template: baked_in_template(bundled),
            source: Source::Bundled,
            store: false,
            warn,
        },
    }
}

fn cache_is_current(cached: &Option<Template>, remote: &Option<String>) -> (current: bool)
    ensures
        current == is_current(crate::template::template_view(*cached), text_view(*remote)),
{
    match (cached, remote) {
        (Some(template), Some(current)) => match &template.sha {
            Some(sha) => *sha == *current,
            None => false,
        },
        _ => false,
    }
}

/// Takes the resolution one step on: from `state`, with what came back.
pub fn step(state: Resolver, event: Event) -> (next: (Resolver, Action))
    ensures
        (next.0@, next.1@) == step_model(state@, event@),
{
    match (state, event) {
        (Resolver::ReadingCache { download, bundled }, Event::CacheRead(record)) => {
            let cached = get_cached_template(record);
            if download {
                (Resolver::AwaitingFingerprint { cached, bundled }, Action::FetchFingerprint)
            } else {
                (Resolver::Finished, cached_or_bundled(cached, bundled, Source::Cache, false))
            }
        },
        (Resolver::AwaitingFingerprint { cached, bundled }, Event::Fingerprint(remote)) => {
            if cache_is_current(&cached, &remote) {
                match cached {
                    Some(template) => (
                        Resolver::Finished,
                        Action::Use { template, source: Source::Cache, store: false, warn: false },
                    ),
                    None => (Resolver::AwaitingArchive { cached: None, bundled }, Action::DownloadArchive),
                }
            } else {
                (Resolver::AwaitingArchive { cached, bundled }, Action::DownloadArchive)
            }
        },
        (Resolver::AwaitingArchive { cached, bundled }, Event::Archive(Some(data))) => (
            Resolver::AwaitingFreshFingerprint { data },
            Action::FetchFingerprint,
        ),
        (Resolver::AwaitingArchive { cached, bundled }, Event::Archive(None)) => (
            Resolver::Finished,
            cached_or_bundled(cached, bundled, Source::StaleCache, true),
        ),
        (Resolver::AwaitingFreshFingerprint { data }, Event::Fingerprint(remote)) => (
            Resolver::Finished,
            Action::Use {
                template: fetch_template(data, remote),
                source: Source::Download,
                store: true,
                warn: false,
            },
        ),
        (state, _) => (state, Action::Idle),
    }
}

/// The actions that answer `events`, one after the other, from `state` on.
pub open spec fn run(state: ResolverView, events: Seq<EventView>) -> Seq<ActionView>
    decreases events.len(),
{
    if events.len() == 0 {
        Seq::<ActionView>::empty()
    } else {
        let (next, action) = step_model(state, events.first());
        seq![action] + run(next, events.drop_first())
    }
}

/// How many of `actions` ask for a download.
pub open spec fn downloads(actions: Seq<ActionView>) -> nat
    decreases actions.len(),
{
    if actions.len() == 0 {
        0
    } else {
        let here: nat = if actions.first() is DownloadArchive {
            1
        } else {
            0
        };
        here + downloads(actions.drop_first())
    }
}

/// The state in which a resolution over the network waits for the cache.
pub open spec fn reading(download: bool, bundled: Seq<u8>) -> ResolverView {
    start_model(Strategy::Network, download, bundled).0
}

/// One step of a run, unfolded.
pub proof fn lemma_run_unfold(state: ResolverView, event: EventView, rest: Seq<EventView>)
    ensures
        run(state, seq![event] + rest) == seq![step_model(state, event).1] + run(
            step_model(state, event).0,
            rest,
        ),
        downloads(run(state, seq![event] + rest)) == downloads(run(step_model(state, event).0, rest))
            + if step_model(state, event).1 is DownloadArchive {
            1nat
        } else {
            0nat
        },
{
    let events = seq![event] + rest;
    assert(events.drop_first() == rest);
    let actions = run(state, events);
    let tail = run(step_model(state, event).0, rest);
    assert(actions.drop_first() == tail);
}

/// Once the download was asked for, or the cache was found good, no run asks
/// for a download again, whatever comes back.
pub proof fn lemma_no_second_download(state: ResolverView, events: Seq<EventView>)
    requires
        !(state is ReadingCache),
        !(state is AwaitingFingerprint),
    ensures
        downloads(run(state, events)) == 0,
    decreases events.len(),
{
    if events.len() > 0 {
        let event = events.first();
        let rest = events.drop_first();
        lemma_run_unfold(state, event, rest);
        lemma_no_second_download(step_model(state, event).0, rest);
    }
}

/// No resolution asks for more than one download, whatever comes back and in
/// whatever order.
pub proof fn lemma_at_most_one_download(state: ResolverView, events: Seq<EventView>)
    ensures
        downloads(run(state, events)) <= 1,
    decreases events.len(),
{
    if events.len() > 0 {
        let event = events.first();
        let rest = events.drop_first();
        lemma_run_unfold(state, event, rest);
        let (next, action) = step_model(state, event);
        if action is DownloadArchive {
            lemma_no_second_download(next, rest);
        } else {
            lemma_at_most_one_download(next, rest);
        }
    }
}

/// Without a request to refresh the template, the cache is used as it is, or
/// the bundled archive where the cache holds nothing, and nothing is asked
/// of the remote source.
pub proof fn lemma_no_refresh_uses_cache(
    bundled: Seq<u8>,
    record: CacheRecordView,
    rest: Seq<EventView>,
)
    ensures
        step_model(reading(false, bundled), EventView::CacheRead(record)) == (
            ResolverView::Finished,
            ActionView::Use {
                template: or_bundled(cached_template(record), bundled),
                source: or_bundled_source(cached_template(record), Source::Cache),
                store: false,
                warn: false,
            },
        ),
        downloads(run(reading(false, bundled), seq![EventView::CacheRead(record)] + rest)) == 0,
{
    let first = EventView::CacheRead(record);
    lemma_run_unfold(reading(false, bundled), first, rest);
    lemma_no_second_download(ResolverView::Finished, rest);
}

/// When the cache holds a template with the fingerprint that the remote
/// source reports now, that template is used, nothing is stored, and no
/// download is asked for, whatever comes back afterwards.
pub proof fn lemma_current_cache_skips_download(
    bundled: Seq<u8>,
    data: Seq<u8>,
    sha: Seq<char>,
    rest: Seq<EventView>,
)
    ensures
        ({
            let record = CacheRecordView { data: Some(data), sha: Some(sha) };
            let events = seq![EventView::CacheRead(record), EventView::Fingerprint(Some(sha))];
            &&& run(reading(true, bundled), events) == seq![
                ActionView::FetchFingerprint,
                ActionView::Use {
                    template: TemplateView { data, sha: Some(sha) },
                    source: Source::Cache,
                    store: false,
                    warn: false,
                },
            ]
            &&& downloads(run(reading(true, bundled), events + rest)) == 0
        }),
{
    let record = CacheRecordView { data: Some(data), sha: Some(sha) };
    let read = EventView::CacheRead(record);
    let reported = EventView::Fingerprint(Some(sha));
    let events = seq![read, reported];
    let waiting = step_model(reading(true, bundled), read).0;
    assert(events == seq![read] + seq![reported]);
    assert(events + rest == seq![read] + (seq![reported] + rest));
    lemma_run_unfold(reading(true, bundled), read, seq![reported]);
    lemma_run_unfold(waiting, reported, Seq::<EventView>::empty());
    lemma_run_unfold(reading(true, bundled), read, seq![reported] + rest);
    lemma_run_unfold(waiting, reported, rest);
    lemma_no_second_download(ResolverView::Finished, rest);
}

/// When the cache is not current (it is stale, it holds nothing, its
/// fingerprint is unknown, or the remote fingerprint could not be had),
/// exactly one download is asked for, whatever comes back afterwards.
pub proof fn lemma_stale_cache_downloads_once(
    bundled: Seq<u8>,
    record: CacheRecordView,
    remote: Option<Seq<char>>,
    rest: Seq<EventView>,
)
    requires
        !is_current(cached_template(record), remote),
    ensures
        downloads(
            run(
                reading(true, bundled),
                seq![EventView::CacheRead(record), EventView::Fingerprint(remote)] + rest,
            ),
        ) == 1,
{
    let read = EventView::CacheRead(record);
    let reported = EventView::Fingerprint(remote);
    let waiting = step_model(reading(true, bundled), read).0;
    assert(seq![read, reported] + rest == seq![read] + (seq![reported] + rest));
    lemma_run_unfold(reading(true, bundled), read, seq![reported] + rest);
    lemma_run_unfold(waiting, reported, rest);
    lemma_no_second_download(step_model(waiting, reported).0, rest);
}

/// When the cache is not current and the download succeeds, the new archive
/// is used together with the fingerprint then reported for it, and it is
/// stored: the cache then holds the new archive and the fingerprint reported
/// for it, and nothing of the record before.
pub proof fn lemma_fresh_download_is_stored(
    bundled: Seq<u8>,
    record: CacheRecordView,
    remote: Option<Seq<char>>,
    data: Seq<u8>,
    fresh: Option<Seq<char>>,
)
    requires
        !is_current(cached_template(record), remote),
    ensures
        ({
            let template = TemplateView { data, sha: fresh };
            &&& run(
                reading(true, bundled),
                seq![
                    EventView::CacheRead(record),
                    EventView::Fingerprint(remote),
                    EventView::Archive(Some(data)),
                    EventView::Fingerprint(fresh),
                ],
            ) == seq![
                ActionView::FetchFingerprint,
                ActionView::DownloadArchive,
                ActionView::FetchFingerprint,
                ActionView::Use { template, source: Source::Download, store: true, warn: false },
            ]
            &&& crate::template::stored(record, template) == (CacheRecordView {
                data: Some(data),
                sha: fresh,
            })
            &&& cached_template(crate::template::stored(record, template)) == Some(template)
        }),
{
    let e0 = EventView::CacheRead(record);
    let e1 = EventView::Fingerprint(remote);
    let e2 = EventView::Archive(Some(data));
    let e3 = EventView::Fingerprint(fresh);
    let s0 = reading(true, bundled);
    let s1 = step_model(s0, e0).0;
    let s2 = step_model(s1, e1).0;
    let s3 = step_model(s2, e2).0;
    let none = Seq::<EventView>::empty();
    assert(seq![e0, e1, e2, e3] == seq![e0] + seq![e1, e2, e3]);
    assert(seq![e1, e2, e3] == seq![e1] + seq![e2, e3]);
    assert(seq![e2, e3] == seq![e2] + seq![e3]);
    lemma_run_unfold(s0, e0, seq![e1, e2, e3]);
    lemma_run_unfold(s1, e1, seq![e2, e3]);
    lemma_run_unfold(s2, e2, seq![e3]);
    lemma_run_unfold(s3, e3, none);
}

/// When the cache is not current and the download fails, what the cache
/// holds is used all the same, however old, and the user is warned; the
/// bundled archive stands in where the cache holds nothing. Nothing is
/// stored.
pub proof fn lemma_failed_download_falls_back(
    bundled: Seq<u8>,
    record: CacheRecordView,
    remote: Option<Seq<char>>,
)
    requires
        !is_current(cached_template(record), remote),
    ensures
        run(
            reading(true, bundled),
            seq![
                EventView::CacheRead(record),
                EventView::Fingerprint(remote),
                EventView::Archive(None),
            ],
        ) == seq![
            ActionView::FetchFingerprint,
            ActionView::DownloadArchive,
            ActionView::Use {
                template: or_bundled(cached_template(record), bundled),
                source: or_bundled_source(cached_template(record), Source::StaleCache),
                store: false,
                warn: true,
            },
        ],
        record.data is Some ==> or_bundled(cached_template(record), bundled).data == record.data->0,
        record.data is None ==> or_bundled(cached_template(record), bundled) == bundled_template(
            bundled,
        ),
{
    let e0 = EventView::CacheRead(record);
    let e1 = EventView::Fingerprint(remote);
    let e2 = EventView::Archive(None);
    let s0 = reading(true, bundled);
    let s1 = step_model(s0, e0).0;
    let s2 = step_model(s1, e1).0;
    let none = Seq::<EventView>::empty();
    assert(seq![e0, e1, e2] == seq![e0] + seq![e1, e2]);
    assert(seq![e1, e2] == seq![e1] + seq![e2]);
    lemma_run_unfold(s0, e0, seq![e1, e2]);
    lemma_run_unfold(s1, e1, seq![e2]);
    lemma_run_unfold(s2, e2, none);
}

/// What the cache holds, as a resolution in `state` knows it when `event`
/// comes.
pub open spec fn held(state: ResolverView, event: EventView) -> Option<TemplateView> {
    match (state, event) {
        (ResolverView::ReadingCache { .. }, EventView::CacheRead(record)) => cached_template(record),
        (ResolverView::AwaitingFingerprint { cached, .. }, _) => cached,
        (ResolverView::AwaitingArchive { cached, .. }, _) => cached,
        _ => None,
    }
}

/// The bundled archive that a resolution in `state` keeps for the end.
pub open spec fn kept(state: ResolverView) -> Seq<u8> {
    match state {
        ResolverView::ReadingCache { bundled, .. } => bundled,
        ResolverView::AwaitingFingerprint { bundled, .. } => bundled,
        ResolverView::AwaitingArchive { bundled, .. } => bundled,
        _ => Seq::<u8>::empty(),
    }
}

/// What a resolution hands out tells where it was taken from. Only a fresh
/// download is stored. The bundled archive is handed out only where the
/// cache holds nothing; it has no fingerprint. What is taken from the cache
/// is what the cache holds, and after a look at the remote fingerprint it is
/// taken as current only where it has that fingerprint. The user is warned
/// exactly where a download was tried and failed.
pub proof fn lemma_source_tells(state: ResolverView, event: EventView)
    requires
        step_model(state, event).1 is Use,
    ensures
        ({
            let action = step_model(state, event).1;
            let template = action->template;
            let source = action->source;
            &&& action->store <==> source == Source::Download
            &&& action->warn <==> state is AwaitingArchive
            &&& source == Source::Download ==> state is AwaitingFreshFingerprint && template.data
                == state->AwaitingFreshFingerprint_data
            &&& source == Source::Bundled ==> held(state, event) is None && template
                == bundled_template(kept(state))
            &&& source == Source::StaleCache ==> state is AwaitingArchive && held(state, event)
                == Some(template)
            &&& source == Source::Cache ==> held(state, event) == Some(template)
            &&& source == Source::Cache && state is AwaitingFingerprint ==> template.sha is Some
                && event == EventView::Fingerprint(template.sha)
        }),
{
}

/// What the outside answers in the course of one resolution: what the cache
/// holds, the fingerprint that the remote source reports, the archive that
/// a download brings, and the fingerprint reported behind the download. An
/// answer that is never asked for plays no part.
pub struct Answers {
    pub record: CacheRecordView,
    pub remote: Option<Seq<char>>,
    pub archive: Option<Seq<u8>>,
    pub fresh: Option<Seq<char>>,
}

/// The template that a resolution over the network comes to, and where it
/// is taken from, in priority order: the cache as it is where no refresh
/// was asked for; the cache where it is current; the download where it
/// arrives; the cache whatever its age; and the bundled archive wherever
/// the cache is turned to and holds nothing.
pub open spec fn resolution(download: bool, bundled: Seq<u8>, answers: Answers) -> (
    TemplateView,
    Source,
) {
    let cached = cached_template(answers.record);
    if !download {
        (or_bundled(cached, bundled), or_bundled_source(cached, Source::Cache))
    } else if is_current(cached, answers.remote) {
        (cached->0, Source::Cache)
    } else {
        match answers.archive {
            Some(data) => (TemplateView { data, sha: answers.fresh }, Source::Download),
            None => (
                or_bundled(cached, bundled),
                or_bundled_source(cached, Source::StaleCache),
            ),
        }
    }
}

/// The events of a driver that gets `answers` from the outside: each answer
/// in its turn, as far as the resolution asks.
pub open spec fn answered(download: bool, answers: Answers) -> Seq<EventView> {
    let read = EventView::CacheRead(answers.record);
    let reported = EventView::Fingerprint(answers.remote);
    if !download {
        seq![read]
    } else if is_current(cached_template(answers.record), answers.remote) {
        seq![read, reported]
    } else {
        match answers.archive {
            Some(data) => seq![
                read,
                reported,
                EventView::Archive(Some(data)),
                EventView::Fingerprint(answers.fresh),
            ],
            None => seq![read, reported, EventView::Archive(None)],
        }
    }
}

/// A resolution that is driven to its end hands out the template of
/// [`resolution`], says where it was taken from, has it stored exactly where
/// it was downloaded, and has the user warned exactly where a download was
/// tried and failed. Every action before that asks for the next answer.
pub proof fn lemma_run_resolves(download: bool, bundled: Seq<u8>, answers: Answers)
    ensures
        ({
            let actions = run(reading(download, bundled), answered(download, answers));
            let (template, source) = resolution(download, bundled, answers);
            &&& actions.len() == answered(download, answers).len()
            &&& actions.last() == ActionView::Use {
                template,
                source,
                store: source == Source::Download,
                warn: download && !is_current(cached_template(answers.record), answers.remote)
                    && answers.archive is None,
            }
            &&& forall|i: int| 0 <= i < actions.len() - 1 ==> !(#[trigger] actions[i] is Use)
                && !(actions[i] is Idle)
        }),
{
    let none = Seq::<EventView>::empty();
    let read = EventView::CacheRead(answers.record);
    let reported = EventView::Fingerprint(answers.remote);
    let s0 = reading(download, bundled);
    let s1 = step_model(s0, read).0;
    let s2 = step_model(s1, reported).0;
    if !download {
        assert(seq![read] == seq![read] + none);
        lemma_run_unfold(s0, read, none);
    } else if is_current(cached_template(answers.record), answers.remote) {
        assert(seq![read, reported] == seq![read] + seq![reported]);
        assert(seq![reported] == seq![reported] + none);
        lemma_run_unfold(s0, read, seq![reported]);
        lemma_run_unfold(s1, reported, none);
    } else {
        match answers.archive {
            Some(data) => {
                let brought = EventView::Archive(Some(data));
                let behind = EventView::Fingerprint(answers.fresh);
                let s3 = step_model(s2, brought).0;
                assert(seq![read, reported, brought, behind] == seq![read] + seq![
                    reported,
                    brought,
                    behind,
                ]);
                assert(seq![reported, brought, behind] == seq![reported] + seq![brought, behind]);
                assert(seq![brought, behind] == seq![brought] + seq![behind]);
                assert(seq![behind] == seq![behind] + none);
                lemma_run_unfold(s0, read, seq![reported, brought, behind]);
                lemma_run_unfold(s1, reported, seq![brought, behind]);
                lemma_run_unfold(s2, brought, seq![behind]);
                lemma_run_unfold(s3, behind, none);
            },
            None => {
                let failed = EventView::Archive(None);
                assert(seq![read, reported, failed] == seq![read] + seq![reported, failed]);
                assert(seq![reported, failed] == seq![reported] + seq![failed]);
                assert(seq![failed] == seq![failed] + none);
                lemma_run_unfold(s0, read, seq![reported, failed]);
                lemma_run_unfold(s1, reported, seq![failed]);
                lemma_run_unfold(s2, failed, none);
            },
        }
    }
}

} // verus!
