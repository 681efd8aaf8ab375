//! The decisions of a workspace's file watcher.
//!
//! A native watcher reports raw filesystem events for a workspace root. Most
//! of them are noise. A [`Watcher`] holds what is needed to tell: the set of
//! ignored paths, the time of the last handled event, and the destination of
//! the last rename. It does no waiting and touches no disk; its answers say
//! what the task that owns it has to do next.
//!
//! Times are milliseconds on one clock; only their differences count.

use crate::broadcast::{Broadcast, BroadcastView};
use crate::ignore::{
    alternation_matches, branch_matches, glob_well_formed, patterns_compile, IgnoreSet,
    PatternError,
};
use crate::level::MessageLevel;
use crate::message::{Message, MessageView};
use crate::registry::{registered, slot, WorkspaceRegistry, WorkspaceView};
use crate::text::{ends_with, same_text};
use vstd::prelude::*;

verus! {

/// Events that come no later than this many milliseconds after the last
/// handled one are taken for part of the same burst.
pub const DEBOUNCE_THRESHOLD_MS: u64 = 1;

/// How long to let the filesystem settle before acting on an event, in
/// milliseconds.
pub const SETTLE_DELAY_MS: u64 = 1000;

/// How the data of a file changed.
#[derive(Debug, Clone, Copy, PartialEq, Eq, Structural, Hash)]
pub enum DataChange {
    /// The kind of change is not known.
    Any,
    /// The size changed.
    Size,
    /// The content changed.
    Content,
    /// Another known change.
    Other,
}

/// What was modified.
#[derive(Debug, Clone, Copy, PartialEq, Eq, Structural, Hash)]
pub enum ModifyKind {
    /// What was modified is not known.
    Any,
    /// The data of a file.
    Data(DataChange),
    /// The metadata of a file or folder.
    Metadata,
    /// The name of a file or folder.
    Name,
    /// Another known modification.
    Other,
}

/// The kind of a native filesystem event.
#[derive(Debug, Clone, Copy, PartialEq, Eq, Structural, Hash)]
pub enum EventKind {
    /// The kind is not known.
    Any,
    /// A file was opened, read or closed.
    Access,
    /// A file or folder was created.
    Create,
    /// A file or folder was modified.
    Modify(ModifyKind),
    /// A file or folder was removed.
    Remove,
    /// Another known event.
    Other,
}

/// A filesystem event as the native watcher reports it. A path that is not
/// valid text is reported as `None`.
#[derive(Debug, PartialEq, Eq)]
pub struct NativeEvent {
    pub kind: EventKind,
    pub paths: Vec<Option<String>>,
}

/// A [`NativeEvent`] as plain values.
pub struct NativeEventView {
    pub kind: EventKind,
    pub paths: Seq<Option<Seq<char>>>,
}

impl NativeEventView {
    /// The path that the event is about: its first one, if that is text.
    pub open spec fn primary_path(self) -> Option<Seq<char>> {
        if self.paths.len() > 0 {
            self.paths[0]
        } else {
            None
        }
    }
}

impl View for NativeEvent {
    type V = NativeEventView;

    open spec fn view(&self) -> NativeEventView {
        NativeEventView { kind: self.kind, paths: self.paths.deep_view() }
    }
}

/// The kind of a change that is worth a regeneration.
#[derive(Debug, Clone, Copy, PartialEq, Eq, Structural, Hash)]
pub enum ChangeKind {
    Create,
    Remove,
    ContentModify,
    Rename,
}

/// A change that is worth a regeneration.
#[derive(Debug, PartialEq, Eq)]
pub struct DirectoryChangeEvent {
    pub path: String,
    pub kind: ChangeKind,
}

/// Why an event is left alone.
#[derive(Debug, Clone, Copy, PartialEq, Eq, Structural, Hash)]
pub enum Discard {
    /// The event names no path, or its first path is not text.
    NoPath,
    /// The path is in the ignore set.
    Ignored,
    /// The event came too soon after the last handled one, or the clock went
    /// back.
    Debounced,
    /// Events of this kind never count.
    Kind,
    /// The content of a file changed that is not the project manifest.
    NotManifest,
    /// The destination of a rename is not on disk.
    Missing,
    /// The destination of a rename is that of the rename before.
    Duplicate,
}

/// What to do about a native event.
#[derive(Debug, PartialEq, Eq)]
pub enum Step {
    /// Leave the event alone.
    Discard(Discard),
    /// Find out whether `path` is on disk, and hand the answer to
    /// [`Watcher::on_probe`].
    Probe { path: String },
    /// Wait for `delay_ms` milliseconds, then regenerate for `event`, and
    /// at the end call [`Watcher::on_regenerated`].
    Settle { event: DirectoryChangeEvent, delay_ms: u64 },
}

/// A [`Step`] as plain values.
pub enum StepView {
    Discard(Discard),
    Probe { path: Seq<char> },
    Settle { path: Seq<char>, kind: ChangeKind, delay_ms: u64 },
}

impl View for Step {
    type V = StepView;

    open spec fn view(&self) -> StepView {
        match *self {
            Step::Discard(reason) => StepView::Discard(reason),
            Step::Probe { path } => StepView::Probe { path: path@ },
            Step::Settle { event, delay_ms } => StepView::Settle {
                path: event.path@,
                kind: event.kind,
                delay_ms,
            },
        }
    }
}

/// The step that settles for a change of the given kind at `path`.
pub open spec fn settle(path: Seq<char>, kind: ChangeKind) -> StepView {
    StepView::Settle { path, kind, delay_ms: SETTLE_DELAY_MS }
}

/// The patterns that every workspace ignores.
pub open spec fn default_ignore_patterns() -> Seq<Seq<char>> {
    seq![
        "**/.git/**"@,
        "**/*.xcodeproj/**"@,
        "**/.*"@,
        "**/build/**"@,
        "**/buildServer.json"@,
    ]
}

/// The patterns that a workspace ignores: the default ones, then its own.
pub open spec fn ignore_patterns_with(extra: Seq<Seq<char>>) -> Seq<Seq<char>> {
    default_ignore_patterns() + extra
}

/// The patterns that the workspace of `root` ignores. A root that is not
/// registered has the default ones only.
pub open spec fn ignore_patterns_of(state: Seq<WorkspaceView>, root: Seq<char>) -> Seq<Seq<char>> {
    if registered(state, root) {
        ignore_patterns_with(state[slot(state, root)].ignore_patterns)
    } else {
        ignore_patterns_with(Seq::empty())
    }
}

/// Whether a path names the project manifest: its last segment is
/// `project.yml`.
pub open spec fn is_manifest_path(path: Seq<char>) -> bool {
    path == "project.yml"@ || "/project.yml"@.is_suffix_of(path)
}

/// Whether a path names the project manifest: its last segment is
/// `project.yml`.
pub fn is_manifest(path: &str) -> (r: bool)
    ensures
        r == is_manifest_path(path@),
{
    same_text(path, "project.yml") || ends_with(path, "/project.yml")
}

/// Whether an event at `now` is too close to the last handled event. An
/// event from before the last handled one is too close as well.
pub open spec fn debounced(last_event_at: u64, now: u64) -> bool {
    now < last_event_at || now - last_event_at <= DEBOUNCE_THRESHOLD_MS
}

/// What the kind of an event asks for, once the event has passed the ignore
/// set and the debounce.
pub open spec fn classify(kind: EventKind, path: Seq<char>) -> StepView {
    match kind {
        EventKind::Create => settle(path, ChangeKind::Create),
        EventKind::Remove => settle(path, ChangeKind::Remove),
        EventKind::Modify(ModifyKind::Data(DataChange::Content)) => if is_manifest_path(path) {
            settle(path, ChangeKind::ContentModify)
        } else {
            StepView::Discard(Discard::NotManifest)
        },
        EventKind::Modify(ModifyKind::Name) => StepView::Probe { path },
        _ => StepView::Discard(Discard::Kind),
    }
}

/// The state of a workspace's watcher as plain values.
pub struct WatcherView {
    /// The root of the workspace that is watched.
    pub root: Seq<char>,
    /// The patterns of the ignore set.
    pub patterns: Seq<Seq<char>>,
    /// When the last handled event was done with.
    pub last_event_at: u64,
    /// The destination of the last rename that was looked at.
    pub last_seen: Seq<char>,
}

impl WatcherView {
    /// The step for a native event that is received at `now`.
    pub open spec fn triage(self, event: NativeEventView, now: u64) -> StepView {
        match event.primary_path() {
            None => StepView::Discard(Discard::NoPath),
            Some(path) => if alternation_matches(self.patterns, path) {
                StepView::Discard(Discard::Ignored)
            } else if debounced(self.last_event_at, now) {
                StepView::Discard(Discard::Debounced)
            } else {
                classify(event.kind, path)
            },
        }
    }

    /// Whether a rename to `path` repeats the rename before it. A rename to
    /// the project manifest never counts as a repetition.
    pub open spec fn repeats_rename(self, path: Seq<char>) -> bool {
        !is_manifest_path(path) && self.last_seen == path
    }

    /// The state after a rename to `path` was looked at.
    pub open spec fn after_rename(self, path: Seq<char>) -> WatcherView {
        if is_manifest_path(path) {
            self
        } else {
            WatcherView { last_seen: path, ..self }
        }
    }

    /// The step for a rename to `path`, given whether `path` is on disk.
    pub open spec fn probe_step(self, path: Seq<char>, exists: bool) -> StepView {
        if !exists {
            StepView::Discard(Discard::Missing)
        } else if self.repeats_rename(path) {
            StepView::Discard(Discard::Duplicate)
        } else {
            settle(path, ChangeKind::Rename)
        }
    }

    /// The state after the answer to a probe of `path` came in.
    pub open spec fn after_probe(self, path: Seq<char>, exists: bool) -> WatcherView {
        if exists {
            self.after_rename(path)
        } else {
            self
        }
    }

    /// The state after a regeneration ended at `now`.
    pub open spec fn after_regeneration(self, now: u64) -> WatcherView {
        if now > self.last_event_at {
            WatcherView { last_event_at: now, ..self }
        } else {
            self
        }
    }
}

/// The watcher of one workspace.
pub struct Watcher {
    root: String,
    ignore: IgnoreSet,
    last_event_at: u64,
    last_seen: String,
}

impl View for Watcher {
    type V = WatcherView;

    closed spec fn view(&self) -> WatcherView {
        WatcherView {
            root: self.root@,
            patterns: self.ignore.patterns(),
            last_event_at: self.last_event_at,
            last_seen: self.last_seen@,
        }
    }
}

/// The patterns that the watcher of `root` is to ignore: the default ones,
/// then those of the workspace of `root`, if it is registered.
pub fn get_ignore_patterns(state: &WorkspaceRegistry, root: &str) -> (patterns: Vec<String>)
    ensures
        patterns.deep_view() == ignore_patterns_of(state@, root@),
{
    let mut patterns: Vec<String> = Vec::new();
    patterns.push("**/.git/**".to_owned());
    patterns.push("**/*.xcodeproj/**".to_owned());
    patterns.push("**/.*".to_owned());
    patterns.push("**/build/**".to_owned());
    patterns.push("**/buildServer.json".to_owned());
    assert(patterns.deep_view() == default_ignore_patterns());
    match state.get(root) {
        Some(workspace) => {
            let extra = workspace.ignore_patterns();
            let mut i: usize = 0;
            while i < extra.len()
                invariant
                    i <= extra.len(),
                    patterns.deep_view() == default_ignore_patterns() + extra.deep_view().subrange(
                        0,
                        i as int,
                    ),
                decreases extra.len() - i,
            {
                let ghost before = patterns.deep_view();
                patterns.push(extra[i].clone());
                assert(patterns.deep_view() == before.push(extra[i as int]@));
                assert(extra.deep_view().subrange(0, i as int + 1) == extra.deep_view().subrange(
                    0,
                    i as int,
                ).push(extra[i as int]@));
                i += 1;
            }
            assert(extra.deep_view().subrange(0, i as int) == extra.deep_view());
        },
        None => {
            assert(patterns.deep_view() == default_ignore_patterns() + Seq::<Seq<char>>::empty());
        },
    }
    patterns
}

/// Makes the watcher of a workspace root, at the time `now`.
///
/// The ignore set is compiled here, once, from the default patterns and
/// those of the workspace. Where that fails there is no watcher.
pub fn handler(state: &WorkspaceRegistry, root: String, now: u64) -> (r: Result<
    Watcher,
    PatternError,
>)
    ensures
        r is Ok <==> patterns_compile(ignore_patterns_of(state@, root@)),
        r matches Ok(watcher) ==> watcher@ == (WatcherView {
            root: root@,
            patterns: ignore_patterns_of(state@, root@),
            last_event_at: now,
            last_seen: Seq::empty(),
        }),
{
    let patterns = get_ignore_patterns(state, root.as_str());
    match IgnoreSet::new(&patterns) {
        Ok(ignore) => Ok(Watcher { root, ignore, last_event_at: now, last_seen: String::new() }),
        Err(error) => Err(error),
    }
}

impl Watcher {
    /// The root of the workspace that is watched.
    pub fn root(&self) -> (r: &str)
        ensures
            r@ == self@.root,
    {
        self.root.as_str()
    }

    /// When the last handled event was done with.
    pub fn last_event_at(&self) -> (t: u64)
        ensures
            t == self@.last_event_at,
    {
        self.last_event_at
    }

    /// The destination of the last rename that was looked at; empty at
    /// first.
    pub fn last_seen(&self) -> (r: &str)
        ensures
            r@ == self@.last_seen,
    {
        self.last_seen.as_str()
    }

    /// Whether the watcher leaves `path` alone.
    pub fn is_ignored(&self, path: &str) -> (r: bool)
        ensures
            r == alternation_matches(self@.patterns, path@),
    {
        self.ignore.is_ignored(path)
    }

    /// Decides what to do about a native event that is received at `now`.
    /// The state of the watcher stays as it is.
    pub fn on_event(&self, event: &NativeEvent, now: u64) -> (step: Step)
        ensures
            step@ == self@.triage(event@, now),
    {
        if event.paths.len() == 0 {
            return Step::Discard(Discard::NoPath);
        }
        let path: &String = match &event.paths[0] {
            Some(path) => path,
            None => {
                return Step::Discard(Discard::NoPath);
            },
        };
        assert(event@.primary_path() == Some(path@));
        if self.ignore.is_ignored(path.as_str()) {
            return Step::Discard(Discard::Ignored);
        }
        if now < self.last_event_at || now - self.last_event_at <= DEBOUNCE_THRESHOLD_MS {
            return Step::Discard(Discard::Debounced);
        }
        match event.kind {
            EventKind::Create => Step::Settle {
                event: DirectoryChangeEvent { path: path.clone(), kind: ChangeKind::Create },
                delay_ms: SETTLE_DELAY_MS,
            },
            EventKind::Remove => Step::Settle {
                event: DirectoryChangeEvent { path: path.clone(), kind: ChangeKind::Remove },
                delay_ms: SETTLE_DELAY_MS,
            },
            EventKind::Modify(ModifyKind::Data(DataChange::Content)) => {
                if is_manifest(path.as_str()) {
                    Step::Settle {
                        event: DirectoryChangeEvent {
                            path: path.clone(),
                            kind: ChangeKind::ContentModify,
                        },
                        delay_ms: SETTLE_DELAY_MS,
                    }
                } else {
                    Step::Discard(Discard::NotManifest)
                }
            },
            EventKind::Modify(ModifyKind::Name) => Step::Probe { path: path.clone() },
            _ => Step::Discard(Discard::Kind),
        }
    }

    /// Whether a rename to `path` is to be passed over because it repeats
    /// the rename before it. Takes note of `path` as the last destination
    /// seen, unless it names the project manifest.
    pub fn should_ignore(&mut self, path: &str) -> (r: bool)
        ensures
            r == old(self)@.repeats_rename(path@),
            final(self)@ == old(self)@.after_rename(path@),
    {
        if is_manifest(path) {
            return false;
        }
        if same_text(self.last_seen.as_str(), path) {
            true
        } else {
            self.last_seen = path.to_owned();
            false
        }
    }

    /// Decides what to do about a rename to `path`, now that it is known
    /// whether `path` is on disk.
    pub fn on_probe(&mut self, path: String, exists: bool) -> (step: Step)
        ensures
            step@ == old(self)@.probe_step(path@, exists),
            final(self)@ == old(self)@.after_probe(path@, exists),
    {
        if !exists {
            Step::Discard(Discard::Missing)
        } else if self.should_ignore(path.as_str()) {
            Step::Discard(Discard::Duplicate)
        } else {
            Step::Settle {
                event: DirectoryChangeEvent { path, kind: ChangeKind::Rename },
                delay_ms: SETTLE_DELAY_MS,
            }
        }
    }

    /// Starts the regeneration for a settled event: the clients of the
    /// workspace are to be told that it starts, in the order in which they
    /// connected. `None` means that the workspace was dropped: there is
    /// nothing to regenerate, and the watcher ends.
    pub fn start_regeneration(&self, state: &WorkspaceRegistry) -> (r: Option<Broadcast>)
        ensures
            r is Some <==> registered(state@, self@.root),
            r matches Some(run) ==> run@ == (BroadcastView {
                message: MessageView::Notify {
                    msg: regenerating_text(),
                    level: MessageLevel::Info,
                },
                recipients: state@[slot(state@, self@.root)].clients,
                outcomes: Seq::empty(),
            }),
    {
        state.notify(self.root.as_str(), regenerating_notice())
    }

    /// Ends the regeneration for a settled event at `now`: the clients of
    /// the workspace are to be told how it went, and the time of the last
    /// handled event moves on, whether it went well or not. `None` means
    /// that the workspace was dropped meanwhile: nothing changes, and the
    /// watcher ends.
    pub fn finish_regeneration(
        &mut self,
        state: &WorkspaceRegistry,
        outcome: Result<(), String>,
        now: u64,
    ) -> (r: Option<Broadcast>)
        ensures
            r is Some <==> registered(state@, old(self)@.root),
            r matches Some(run) ==> run@ == (BroadcastView {
                message: report_of(
                    match outcome {
                        Ok(_) => Ok(()),
                        Err(error) => Err(error@),
                    },
                ),
                recipients: state@[slot(state@, old(self)@.root)].clients,
                outcomes: Seq::empty(),
            }),
            final(self)@ == if r is Some {
                old(self)@.after_regeneration(now)
            } else {
                old(self)@
            },
    {
        let run = state.notify(self.root.as_str(), regeneration_report(outcome));
        if run.is_some() {
            self.on_regenerated(now);
        }
        run
    }

    /// Takes note that the regeneration for a settled event ended at `now`,
    /// however it went. The time of the last handled event never goes back.
    pub fn on_regenerated(&mut self, now: u64)
        ensures
            final(self)@ == old(self)@.after_regeneration(now),
            final(self)@.last_event_at >= old(self)@.last_event_at,
    {
        if now > self.last_event_at {
            self.last_event_at = now;
        }
    }
}

/// What clients are told when a regeneration starts.
pub open spec fn regenerating_text() -> Seq<char> {
    "Regenerating compilation database .."@
}

/// What clients are told when a regeneration succeeded.
pub open spec fn regenerated_text() -> Seq<char> {
    "Compilation database regenerated."@
}

/// What stands before the error of a regeneration that failed.
pub open spec fn failure_tag() -> Seq<char> {
    "[CompileCommands] "@
}

/// The message that reports how a regeneration went: a log line at success
/// level, or the error as a log line at error level.
pub open spec fn report_of(outcome: Result<(), Seq<char>>) -> MessageView {
    match outcome {
        Ok(_) => MessageView::Log { msg: regenerated_text(), level: MessageLevel::Success },
        Err(error) => MessageView::Log { msg: failure_tag() + error, level: MessageLevel::Error },
    }
}

/// The message that tells clients that a regeneration starts.
pub fn regenerating_notice() -> (m: Message)
    ensures
        m@ == (MessageView::Notify { msg: regenerating_text(), level: MessageLevel::Info }),
{
    Message::Notify {
        msg: "Regenerating compilation database ..".to_owned(),
        level: MessageLevel::Info,
    }
}

/// The message that reports to clients how a regeneration went. A failure
/// reaches them as a log line, never as an error value.
pub fn regeneration_report(outcome: Result<(), String>) -> (m: Message)
    ensures
        m@ == report_of(
            match outcome {
                Ok(_) => Ok(()),
                Err(error) => Err(error@),
            },
        ),
{
    match outcome {
        Ok(_) => Message::Log {
            msg: "Compilation database regenerated.".to_owned(),
            level: MessageLevel::Success,
        },
        Err(error) => Message::Log {
            msg: "[CompileCommands] ".to_owned().concat(error.as_str()),
            level: MessageLevel::Error,
        },
    }
}

/// A workspace with a malformed pattern among its own has no ignore set,
/// and so no watcher.
pub proof fn lemma_malformed_pattern_stops_watcher(
    state: Seq<WorkspaceView>,
    root: Seq<char>,
    i: int,
)
    requires
        registered(state, root),
        0 <= i < state[slot(state, root)].ignore_patterns.len(),
        !glob_well_formed(state[slot(state, root)].ignore_patterns[i]),
    ensures
        !patterns_compile(ignore_patterns_of(state, root)),
{
    let extra = state[slot(state, root)].ignore_patterns;
    let all = ignore_patterns_of(state, root);
    assert(default_ignore_patterns().len() == 5);
    assert(all[5 + i] == extra[i]);
}

/// A path that one of the default patterns matches, as a branch of the
/// ignore set, is ignored by every watcher, whatever patterns its workspace
/// adds.
pub proof fn lemma_default_pattern_is_ignored(
    w: WatcherView,
    extra: Seq<Seq<char>>,
    i: int,
    path: Seq<char>,
)
    requires
        w.patterns == ignore_patterns_with(extra),
        0 <= i < default_ignore_patterns().len(),
        branch_matches(default_ignore_patterns()[i], path),
    ensures
        alternation_matches(w.patterns, path),
{
    assert(w.patterns[i] == default_ignore_patterns()[i]);
}

/// An event about an ignored path is discarded, whatever its kind and time.
pub proof fn lemma_ignored_path_is_discarded(w: WatcherView, event: NativeEventView, now: u64)
    requires
        event.primary_path() matches Some(path) && alternation_matches(w.patterns, path),
    ensures
        w.triage(event, now) == StepView::Discard(Discard::Ignored),
{
}

/// An event that comes no later than the threshold after the last handled
/// one is discarded.
pub proof fn lemma_burst_is_discarded(w: WatcherView, event: NativeEventView, now: u64)
    requires
        now <= w.last_event_at + DEBOUNCE_THRESHOLD_MS,
    ensures
        w.triage(event, now) is Discard,
{
}

/// Events that come later than the threshold after the last handled one are
/// judged by their path and kind alone: the time no longer counts.
pub proof fn lemma_spaced_events_are_independent(
    w: WatcherView,
    event: NativeEventView,
    now: u64,
    later: u64,
)
    requires
        now > w.last_event_at + DEBOUNCE_THRESHOLD_MS,
        later > w.last_event_at + DEBOUNCE_THRESHOLD_MS,
    ensures
        w.triage(event, now) == w.triage(event, later),
        event.primary_path() matches Some(path) ==> (!alternation_matches(w.patterns, path)
            ==> w.triage(event, now) == classify(event.kind, path)),
{
}

/// After an event was handled at `done`, an event that comes no later than
/// the threshold after it is discarded.
pub proof fn lemma_rapid_second_event(w: WatcherView, done: u64, event: NativeEventView, now: u64)
    requires
        now <= done + DEBOUNCE_THRESHOLD_MS,
    ensures
        w.after_regeneration(done).triage(event, now) is Discard,
{
}

/// The time of the last handled event never goes back, and a regeneration
/// that ends later than it moves it to its own end.
pub proof fn lemma_last_event_is_monotonic(w: WatcherView, path: Seq<char>, exists: bool, now: u64)
    ensures
        w.after_probe(path, exists).last_event_at == w.last_event_at,
        w.after_regeneration(now).last_event_at >= w.last_event_at,
        w.after_regeneration(now).last_event_at >= now,
        w.after_regeneration(now).last_event_at == now || w.after_regeneration(
            now,
        ).last_event_at == w.last_event_at,
{
}

/// Of two renames in a row to the same destination, which is on disk and is
/// not the project manifest, the second is discarded. The first settles
/// unless it repeats the rename before it.
pub proof fn lemma_repeated_rename_is_discarded(w: WatcherView, path: Seq<char>, exists: bool)
    requires
        !is_manifest_path(path),
    ensures
        w.after_probe(path, true).probe_step(path, exists) is Discard,
        w.last_seen != path ==> w.probe_step(path, true) == settle(path, ChangeKind::Rename),
{
}

/// A rename to the project manifest that is on disk always settles.
pub proof fn lemma_manifest_rename_always_settles(w: WatcherView, path: Seq<char>)
    requires
        is_manifest_path(path),
    ensures
        w.probe_step(path, true) == settle(path, ChangeKind::Rename),
        w.after_probe(path, true) == w,
{
}

/// A change of content in a file that is not the project manifest is
/// discarded, whatever the ignore set and the time of the last event.
pub proof fn lemma_content_change_needs_manifest(w: WatcherView, event: NativeEventView, now: u64)
    requires
        event.kind == EventKind::Modify(ModifyKind::Data(DataChange::Content)),
        event.primary_path() matches Some(path) ==> !is_manifest_path(path),
    ensures
        w.triage(event, now) is Discard,
{
}

/// A path that does not end in `project.yml` does not name the manifest.
pub proof fn lemma_manifest_path_ends_in_name(path: Seq<char>)
    requires
        is_manifest_path(path),
    ensures
        "project.yml"@.is_suffix_of(path),
{
    reveal_strlit("project.yml");
    reveal_strlit("/project.yml");
    let name = "project.yml"@;
    let tail = "/project.yml"@;
    if path != name {
        assert(tail.is_suffix_of(path));
        let n = path.len() as int;
        let tail_in_path = path.subrange(n - 12, n);
        assert(tail_in_path =~= tail);
        assert(path.subrange(n - 11, n) =~= tail_in_path.subrange(1, 12));
        assert(tail.subrange(1, 12) =~= name);
    } else {
        assert(path.subrange(0, path.len() as int) =~= path);
    }
}

} // verus!
