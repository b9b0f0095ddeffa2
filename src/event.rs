//! Filesystem events: the notifier's kinds, the normalised event model, the
//! ignore matcher and the debounce state.
use vstd::prelude::*;
use crate::text::{owned, str_eq, strip_prefix, without_prefix};

verus! {

/// Debounce window, in milliseconds.
pub const DEBOUNCE_MS: u64 = 100;

/// The kinds of raw event that the filesystem notifier reports.
#[derive(Debug, Clone, Copy, PartialEq, Eq, Structural)]
pub enum NotifyKind {
    Any,
    Access,
    Create,
    ModifyAny,
    ModifyData,
    ModifyMetadata,
    ModifyName,
    ModifyOther,
    Remove,
    Other,
}

/// The kind of a normalised event.
#[derive(Debug, Clone, Copy, PartialEq, Eq, Structural)]
pub enum EventKind {
    Create,
    Remove,
    Rename,
    ContentUpdate,
    Other,
}

/// The event kind of a notifier kind.
pub open spec fn kind_of(k: NotifyKind) -> EventKind {
    match k {
        NotifyKind::Create => EventKind::Create,
        NotifyKind::Remove => EventKind::Remove,
        NotifyKind::ModifyName => EventKind::Rename,
        NotifyKind::ModifyData => EventKind::ContentUpdate,
        _ => EventKind::Other,
    }
}

impl EventKind {
    pub fn from_notify(k: NotifyKind) -> (r: EventKind)
        ensures
            r == kind_of(k),
    {
        match k {
            NotifyKind::Create => EventKind::Create,
            NotifyKind::Remove => EventKind::Remove,
            NotifyKind::ModifyName => EventKind::Rename,
            NotifyKind::ModifyData => EventKind::ContentUpdate,
            _ => EventKind::Other,
        }
    }
}

/// A raw notifier event: its kind and the paths it concerns.
pub struct RawEvent {
    pub kind: NotifyKind,
    pub paths: Vec<String>,
}

/// Whether the glob patterns all build, as `wax::any` decides.
pub uninterp spec fn globs_build(patterns: Seq<Seq<char>>) -> bool;

/// Whether a path matches any of the glob patterns, as `wax::Any::is_match` decides.
pub uninterp spec fn globs_match(patterns: Seq<Seq<char>>, path: Seq<char>) -> bool;

/// Relies on `wax::any`: whether the union of the patterns builds depends on
/// the patterns alone.
#[verifier::external_body]
fn build_globs(patterns: &Vec<String>) -> (r: bool)
    ensures
        r == globs_build(patterns.deep_view()),
{
    wax::any::<wax::Glob, _>(patterns.iter().map(|p| p.as_str()).collect::<Vec<&str>>()).is_ok()
}

/// Relies on `wax::Any::is_match` over the union that `wax::any` builds:
/// whether the path matches depends on the patterns and the path alone.
#[verifier::external_body]
fn match_globs(patterns: &Vec<String>, path: &str) -> (r: bool)
    requires
        globs_build(patterns.deep_view()),
    ensures
        r == globs_match(patterns.deep_view(), path@),
{
    match wax::any::<wax::Glob, _>(patterns.iter().map(|p| p.as_str()).collect::<Vec<&str>>()) {
        Ok(any) => wax::Pattern::is_match(&any, path),
        Err(_) => false,
    }
}

/// A path as seen from `root`: without the leading `root/`.
pub open spec fn relative_to(root: Seq<char>, path: Seq<char>) -> Seq<char> {
    strip_prefix(path, root + "/"@)
}

/// Union of glob patterns, evaluated against paths relative to a project
/// root: a path is ignored when any pattern matches it.
pub struct IgnoreMatcher {
    root: String,
    prefix: String,
    patterns: Vec<String>,
}

impl IgnoreMatcher {
    pub closed spec fn patterns(&self) -> Seq<Seq<char>> {
        self.patterns.deep_view()
    }

    pub closed spec fn root(&self) -> Seq<char> {
        self.root@
    }

    pub closed spec fn wf(&self) -> bool {
        &&& globs_build(self.patterns.deep_view())
        &&& self.prefix@ == self.root@ + "/"@
    }

    /// Whether `path` is ignored.
    pub open spec fn ignores(&self, path: Seq<char>) -> bool {
        globs_match(self.patterns(), relative_to(self.root(), path))
    }

    /// Build the matcher for the project at `root`; `None` when a pattern
    /// does not build.
    pub fn new(root: &str, patterns: Vec<String>) -> (r: Option<IgnoreMatcher>)
        ensures
            r is Some <==> globs_build(patterns.deep_view()),
            r matches Some(m) ==> m.wf() && m.patterns() == patterns.deep_view() && m.root() == root@,
    {
        if build_globs(&patterns) {
            let mut prefix = owned(root);
            prefix.append("/");
            Some(IgnoreMatcher { root: owned(root), prefix, patterns })
        } else {
            None
        }
    }

    /// Whether `path` is ignored.
    pub fn is_match(&self, path: &str) -> (r: bool)
        requires
            self.wf(),
        ensures
            r == self.ignores(path@),
    {
        match_globs(&self.patterns, without_prefix(path, self.prefix.as_str()))
    }
}

/// Milliseconds from `since` to `now`; zero when the clock went back.
pub open spec fn elapsed(since: u64, now: u64) -> u64 {
    if now >= since {
        (now - since) as u64
    } else {
        0
    }
}

/// Whether an event on `path` at `now` repeats the last one within the
/// debounce window.
pub open spec fn seen_at(last_path: Seq<char>, debounce: u64, path: Seq<char>, now: u64) -> bool {
    path == last_path && elapsed(debounce, now) < DEBOUNCE_MS
}

/// Debounce state of one watcher: when the last event was processed and
/// the path of the last event.
pub struct InternalState {
    debounce: u64,
    last_path: String,
}

impl InternalState {
    pub closed spec fn debounce_spec(&self) -> u64 {
        self.debounce
    }

    pub closed spec fn last_path_spec(&self) -> Seq<char> {
        self.last_path@
    }

    /// A fresh state stamped at `now`, with no last path.
    pub fn new(now: u64) -> (r: InternalState)
        ensures
            r.debounce_spec() == now,
            r.last_path_spec() == Seq::<char>::empty(),
    {
        InternalState { debounce: now, last_path: String::new() }
    }

    /// Stamp the time at which an event was processed.
    pub fn update_debounce(&mut self, now: u64)
        ensures
            final(self).debounce_spec() == now,
            final(self).last_path_spec() == old(self).last_path_spec(),
    {
        self.debounce = now;
    }

    /// Milliseconds since the last processed event.
    pub fn last_run(&self, now: u64) -> (r: u64)
        ensures
            r == elapsed(self.debounce_spec(), now),
    {
        if now >= self.debounce {
            now - self.debounce
        } else {
            0
        }
    }

    /// The path of the last event.
    pub fn last_path(&self) -> (r: String)
        ensures
            r@ == self.last_path_spec(),
    {
        self.last_path.clone()
    }
}

/// Whether a raw event gives a normalised one: it has a path, its first
/// path is not ignored by `ignore`, and its kind is one that is reported.
pub open spec fn yields_event(ignore: IgnoreMatcher, kind: NotifyKind, paths: Seq<Seq<char>>) -> bool {
    &&& paths.len() > 0
    &&& !ignore.ignores(paths[0])
    &&& kind_of(kind) != EventKind::Other
}

/// A normalised filesystem event.
pub struct Event {
    pub path: String,
    pub kind: EventKind,
    pub seen: bool,
    pub received_at: u64,
}

/// The last component of a path: what follows its last `/`.
pub open spec fn base_name(p: Seq<char>) -> Seq<char>
    decreases p.len(),
{
    if p.len() == 0 {
        p
    } else if p.last() == '/' {
        Seq::empty()
    } else {
        base_name(p.drop_last()).push(p.last())
    }
}

proof fn lemma_base_name_from(p: Seq<char>, i: int)
    requires
        0 <= i <= p.len(),
        i > 0 ==> p[i - 1] == '/',
        forall|k: int| i <= k < p.len() ==> p[k] != '/',
    ensures
        base_name(p) == p.subrange(i, p.len() as int),
    decreases p.len(),
{
    if p.len() == i {
        assert(p.subrange(i, i) =~= Seq::<char>::empty());
    } else {
        lemma_base_name_from(p.drop_last(), i);
        assert(p.subrange(i, p.len() as int) =~= p.drop_last().subrange(i, p.len() - 1).push(p.last()));
    }
}

/// The last component of a path.
pub fn file_name_of(p: &str) -> (r: &str)
    ensures
        r@ == base_name(p@),
{
    let n = p.unicode_len();
    let mut i: usize = n;
    while i > 0
        invariant
            n == p@.len(),
            i <= n,
            forall|k: int| i <= k < n ==> p@[k] != '/',
        ensures
            i <= n,
            i > 0 ==> p@[i - 1] == '/',
            forall|k: int| i <= k < n ==> p@[k] != '/',
        decreases i,
    {
        if p.get_char(i - 1) == '/' {
            break;
        }
        i = i - 1;
    }
    proof {
        lemma_base_name_from(p@, i as int);
    }
    p.substring_char(i, n)
}

impl Event {
    pub fn is_create_event(&self) -> (r: bool)
        ensures
            r == (self.kind == EventKind::Create),
    {
        self.kind == EventKind::Create
    }

    pub fn is_remove_event(&self) -> (r: bool)
        ensures
            r == (self.kind == EventKind::Remove),
    {
        self.kind == EventKind::Remove
    }

    pub fn is_rename_event(&self) -> (r: bool)
        ensures
            r == (self.kind == EventKind::Rename),
    {
        self.kind == EventKind::Rename
    }

    pub fn is_content_update_event(&self) -> (r: bool)
        ensures
            r == (self.kind == EventKind::ContentUpdate),
    {
        self.kind == EventKind::ContentUpdate
    }

    pub fn is_seen(&self) -> (r: bool)
        ensures
            r == self.seen,
    {
        self.seen
    }

    /// The last component of the event's path.
    pub fn file_name(&self) -> (r: &str)
        ensures
            r@ == base_name(self.path@),
    {
        file_name_of(self.path.as_str())
    }

    pub fn path(&self) -> (r: &str)
        ensures
            r@ == self.path@,
    {
        self.path.as_str()
    }

    /// Normalise a raw event received at `now`: it concerns its first path;
    /// an event without a path, on an ignored path, or of another kind gives
    /// none. An event that is given becomes the state's last path, and is
    /// `seen` when it repeats the last path within the debounce window.
    pub fn new(ignore: &IgnoreMatcher, state: &mut InternalState, raw: &RawEvent, now: u64) -> (r:
        Option<Event>)
        requires
            ignore.wf(),
        ensures
            r is Some <==> yields_event(*ignore, raw.kind, raw.paths.deep_view()),
            r is None ==> *final(state) == *old(state),
            r matches Some(e) ==> {
                &&& e.path@ == raw.paths@[0]@
                &&& e.kind == kind_of(raw.kind)
                &&& e.seen == seen_at(
                    old(state).last_path_spec(),
                    old(state).debounce_spec(),
                    e.path@,
                    now,
                )
                &&& e.received_at == now
                &&& final(state).last_path_spec() == e.path@
                &&& final(state).debounce_spec() == old(state).debounce_spec()
            },
    {
        if raw.paths.len() == 0 {
            return None;
        }
        let path = raw.paths[0].as_str();
        if ignore.is_match(path) {
            return None;
        }
        let kind = EventKind::from_notify(raw.kind);
        if kind == EventKind::Other {
            return None;
        }
        let seen = str_eq(path, state.last_path.as_str()) && state.last_run(now) < DEBOUNCE_MS;
        state.last_path = owned(path);
        Some(Event { path: owned(path), kind, seen, received_at: now })
    }
}

/// An event on the same path as the previous one, arriving within the
/// debounce window after that one was processed, is marked as seen.
pub proof fn repeat_within_window_is_seen(
    first: Seq<char>,
    processed_at: u64,
    second: Seq<char>,
    now: u64,
)
    requires
        second == first,
        processed_at <= now,
        now - processed_at < DEBOUNCE_MS,
    ensures
        seen_at(first, processed_at, second, now),
{
}

} // verus!
