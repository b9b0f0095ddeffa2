//! The set of reactors attached to a project and the per-event dispatch
//! over it.
use vstd::prelude::*;
use crate::event::{
    yields_event, base_name, Event, EventKind, IgnoreMatcher, InternalState, NotifyKind, RawEvent,
};
use crate::text::{owned, str_eq};

verus! {

/// Keys that occur at most once.
pub open spec fn unique_keys(s: Seq<Seq<char>>) -> bool {
    forall|i: int, j: int| 0 <= i < s.len() && 0 <= j < s.len() && i != j ==> s[i] != s[j]
}

/// The elements of `s` whose flag in `drop` is false, in order.
pub open spec fn keep<A>(s: Seq<A>, drop: Seq<bool>) -> Seq<A>
    decreases s.len(),
{
    if s.len() == 0 || drop.len() == 0 {
        Seq::empty()
    } else {
        let rest = keep(s.drop_last(), drop.drop_last());
        if drop.last() {
            rest
        } else {
            rest.push(s.last())
        }
    }
}

proof fn lemma_keep_subset<A>(s: Seq<A>, drop: Seq<bool>, x: A)
    requires
        keep(s, drop).contains(x),
    ensures
        s.contains(x),
    decreases s.len(),
{
    if s.len() > 0 && drop.len() > 0 {
        let rest = keep(s.drop_last(), drop.drop_last());
        if rest.contains(x) {
            lemma_keep_subset(s.drop_last(), drop.drop_last(), x);
            let k = choose|k: int| 0 <= k < s.drop_last().len() && s.drop_last()[k] == x;
            assert(s[k] == x);
        } else {
            assert(s[s.len() - 1] == x);
        }
    }
}

proof fn lemma_keep_unique(s: Seq<Seq<char>>, drop: Seq<bool>)
    requires
        unique_keys(s),
    ensures
        unique_keys(keep(s, drop)),
    decreases s.len(),
{
    if s.len() > 0 && drop.len() > 0 {
        let pre = s.drop_last();
        assert(unique_keys(pre)) by {
            assert forall|i: int, j: int| 0 <= i < pre.len() && 0 <= j < pre.len() && i != j implies pre[i]
                != pre[j] by {
                assert(s[i] == pre[i] && s[j] == pre[j]);
            }
        }
        lemma_keep_unique(pre, drop.drop_last());
        let rest = keep(pre, drop.drop_last());
        if !drop.last() {
            if rest.contains(s.last()) {
                lemma_keep_subset(pre, drop.drop_last(), s.last());
                let k = choose|k: int| 0 <= k < pre.len() && pre[k] == s.last();
                assert(s[k] == s[s.len() - 1]);
            }
            let r = rest.push(s.last());
            assert forall|i: int, j: int| 0 <= i < r.len() && 0 <= j < r.len() && i != j implies r[i]
                != r[j] by {
                if i == rest.len() {
                    assert(rest[j] == r[j]);
                } else if j == rest.len() {
                    assert(rest[i] == r[i]);
                }
            }
        }
    }
}

/// Keys of the reactors attached to a project, in insertion order.
pub struct WatchService {
    keys: Vec<String>,
}

impl View for WatchService {
    type V = Seq<Seq<char>>;

    closed spec fn view(&self) -> Seq<Seq<char>> {
        self.keys.deep_view()
    }
}

impl WatchService {
    /// Keys are unique.
    pub open spec fn wf(&self) -> bool {
        unique_keys(self@)
    }

    pub fn new() -> (r: WatchService)
        ensures
            r@ == Seq::<Seq<char>>::empty(),
            r.wf(),
    {
        WatchService { keys: Vec::new() }
    }

    pub fn len(&self) -> (r: usize)
        ensures
            r == self@.len(),
    {
        self.keys.len()
    }

    /// The key at position `i`.
    pub fn key(&self, i: usize) -> (r: &str)
        requires
            i < self@.len(),
        ensures
            r@ == self@[i as int],
    {
        self.keys[i].as_str()
    }

    /// The position of `key`, if present.
    pub fn position(&self, key: &str) -> (r: Option<usize>)
        ensures
            r matches Some(i) ==> i < self@.len() && self@[i as int] == key@,
            r is None ==> !self@.contains(key@),
    {
        let mut i: usize = 0;
        while i < self.keys.len()
            invariant
                i <= self.keys.len(),
                forall|k: int| 0 <= k < i ==> self@[k] != key@,
            decreases self.keys.len() - i,
        {
            if str_eq(self.keys[i].as_str(), key) {
                return Some(i);
            }
            i = i + 1;
        }
        None
    }

    /// Attach a reactor by key. A key already present keeps its place (the
    /// caller replaces the reactor behind it) and `true` is returned.
    pub fn add(&mut self, key: &str) -> (r: bool)
        requires
            old(self).wf(),
        ensures
            final(self).wf(),
            r == old(self)@.contains(key@),
            r ==> final(self)@ == old(self)@,
            !r ==> final(self)@ == old(self)@.push(key@),
    {
        match self.position(key) {
            Some(_) => true,
            None => {
                self.keys.push(owned(key));
                proof {
                    assert(self@ =~= old(self)@.push(key@));
                }
                false
            },
        }
    }

    /// Detach the reactor with `key`; `true` if it was present.
    pub fn remove(&mut self, key: &str) -> (r: bool)
        requires
            old(self).wf(),
        ensures
            final(self).wf(),
            r == old(self)@.contains(key@),
            !final(self)@.contains(key@),
            r ==> exists|i: int| 0 <= i < old(self)@.len() && old(self)@[i] == key@
                && final(self)@ == old(self)@.remove(i),
            !r ==> final(self)@ == old(self)@,
    {
        match self.position(key) {
            Some(i) => {
                self.keys.remove(i);
                proof {
                    assert(self@ =~= old(self)@.remove(i as int));
                    if self@.contains(key@) {
                        let k = choose|k: int| 0 <= k < self@.len() && self@[k] == key@;
                        if k < i {
                            assert(old(self)@[k] == key@);
                        } else {
                            assert(old(self)@[k + 1] == key@);
                        }
                    }
                }
                true
            },
            None => false,
        }
    }

    /// Remove every reactor that a finished dispatch discarded, keeping
    /// the order of the others.
    pub fn remove_discarded(&mut self, d: &Dispatch)
        requires
            old(self).wf(),
            d.wf(),
            d.count() == old(self)@.len(),
        ensures
            final(self).wf(),
            final(self)@ == keep(old(self)@, d.discarded()),
    {
        let mut kept: Vec<String> = Vec::new();
        let mut i: usize = 0;
        let ghost old_keys = self@;
        while i < self.keys.len()
            invariant
                self@ == old_keys,
                d.count() == old_keys.len(),
                d.discarded().len() == old_keys.len(),
                i <= self.keys.len(),
                kept.deep_view() == keep(old_keys.take(i as int), d.discarded().take(i as int)),
            decreases self.keys.len() - i,
        {
            let ghost pre_keys = old_keys.take(i as int);
            let ghost pre_drop = d.discarded().take(i as int);
            assert(old_keys.take(i + 1).drop_last() =~= pre_keys);
            assert(d.discarded().take(i + 1).drop_last() =~= pre_drop);
            if !d.is_discarded(i) {
                kept.push(self.keys[i].clone());
                assert(kept.deep_view() =~= keep(pre_keys, pre_drop).push(old_keys[i as int]));
            }
            i = i + 1;
        }
        assert(old_keys.take(old_keys.len() as int) =~= old_keys);
        assert(d.discarded().take(old_keys.len() as int) =~= d.discarded());
        proof {
            lemma_keep_unique(old_keys, d.discarded());
        }
        self.keys = kept;
    }
}

/// The next thing the dispatcher does for the current event.
#[derive(Debug, Clone, Copy, PartialEq, Eq, Structural)]
pub enum Action {
    /// Ask reactor `i` whether it should be discarded.
    AskDiscard(usize),
    /// Run `discard` on reactor `i`.
    RunDiscard(usize),
    /// Ask reactor `i` whether it should be triggered.
    AskTrigger(usize),
    /// Run `trigger` on reactor `i`.
    RunTrigger(usize),
    /// All reactors have seen the event.
    Finish,
}

/// The first action for an event: none when there is no event or no reactor.
pub open spec fn first_action(has_event: bool, count: nat) -> Action {
    if has_event && count > 0 {
        Action::AskDiscard(0)
    } else {
        Action::Finish
    }
}

/// The action after reactor `i` is done with.
pub open spec fn after_reactor(i: usize, count: nat) -> Action {
    if i + 1 < count {
        Action::AskDiscard((i + 1) as usize)
    } else {
        Action::Finish
    }
}

/// The action that follows `a` given the reactor's answer (ignored after a
/// run): a reactor to discard is discarded and not asked to trigger; one
/// to trigger is triggered; then the next reactor is asked.
pub open spec fn next_action(a: Action, answer: bool, count: nat) -> Action {
    match a {
        Action::AskDiscard(i) => if answer {
            Action::RunDiscard(i)
        } else {
            Action::AskTrigger(i)
        },
        Action::RunDiscard(i) => after_reactor(i, count),
        Action::AskTrigger(i) => if answer {
            Action::RunTrigger(i)
        } else {
            after_reactor(i, count)
        },
        Action::RunTrigger(i) => after_reactor(i, count),
        Action::Finish => Action::Finish,
    }
}

/// Progress of one event through the reactors, in order.
pub struct Dispatch {
    count: usize,
    action: Action,
    discarded: Vec<bool>,
}

impl Dispatch {
    pub closed spec fn count(&self) -> nat {
        self.count as nat
    }

    pub closed spec fn current(&self) -> Action {
        self.action
    }

    /// For each reactor, whether it was discarded.
    pub closed spec fn discarded(&self) -> Seq<bool> {
        self.discarded@
    }

    pub closed spec fn wf(&self) -> bool {
        &&& self.discarded@.len() == self.count
        &&& match self.action {
            Action::AskDiscard(i) => i < self.count,
            Action::RunDiscard(i) => i < self.count,
            Action::AskTrigger(i) => i < self.count,
            Action::RunTrigger(i) => i < self.count,
            Action::Finish => true,
        }
    }

    /// Start dispatching an event, if any, to `count` reactors.
    pub fn start(event: &Option<Event>, count: usize) -> (r: Dispatch)
        ensures
            r.wf(),
            r.count() == count,
            r.current() == first_action(event is Some, count as nat),
            r.discarded() == Seq::new(count as nat, |i: int| false),
    {
        let mut discarded: Vec<bool> = Vec::new();
        let mut i: usize = 0;
        while i < count
            invariant
                i <= count,
                discarded@ == Seq::new(i as nat, |k: int| false),
            decreases count - i,
        {
            discarded.push(false);
            i = i + 1;
            assert(discarded@ =~= Seq::new(i as nat, |k: int| false));
        }
        let action = if event.is_some() && count > 0 {
            Action::AskDiscard(0)
        } else {
            Action::Finish
        };
        Dispatch { count, action, discarded }
    }

    /// What to do next.
    pub fn action(&self) -> (r: Action)
        ensures
            r == self.current(),
    {
        self.action
    }

    /// Whether reactor `i` was discarded.
    pub fn is_discarded(&self, i: usize) -> (r: bool)
        requires
            i < self.discarded().len(),
        ensures
            r == self.discarded()[i as int],
    {
        self.discarded[i]
    }

    /// Record the answer to the current action (for a run, its completion)
    /// and move on.
    pub fn step(&mut self, answer: bool)
        requires
            old(self).wf(),
        ensures
            final(self).wf(),
            final(self).count() == old(self).count(),
            final(self).current() == next_action(old(self).current(), answer, old(self).count()),
            final(self).discarded() == match old(self).current() {
                Action::RunDiscard(i) => old(self).discarded().update(i as int, true),
                _ => old(self).discarded(),
            },
    {
        let count = self.count;
        let next = |i: usize| -> (a: Action)
            requires
                i < count,
            ensures
                a == after_reactor(i, count as nat),
            {
                if i + 1 < count {
                    Action::AskDiscard(i + 1)
                } else {
                    Action::Finish
                }
            };
        self.action = match self.action {
            Action::AskDiscard(i) => if answer {
                Action::RunDiscard(i)
            } else {
                Action::AskTrigger(i)
            },
            Action::RunDiscard(i) => {
                self.discarded.set(i, true);
                next(i)
            },
            Action::AskTrigger(i) => if answer {
                Action::RunTrigger(i)
            } else {
                next(i)
            },
            Action::RunTrigger(i) => next(i),
            Action::Finish => Action::Finish,
        };
    }
}

impl WatchService {
    /// Take in a raw event received at `now`: normalise it and start its
    /// dispatch over the reactors. An event that gives none (no path, an
    /// ignored path, an unreported kind) reaches no reactor and leaves the
    /// debounce state as it was.
    pub fn receive(&self, ignore: &IgnoreMatcher, state: &mut InternalState, raw: &RawEvent, now: u64) -> (r: (
        Option<Event>,
        Dispatch,
    ))
        requires
            ignore.wf(),
        ensures
            r.0 is Some <==> yields_event(*ignore, raw.kind, raw.paths.deep_view()),
            r.0 is None ==> *final(state) == *old(state) && r.1.current() == Action::Finish,
            r.1.wf(),
            r.1.count() == self@.len(),
            r.1.current() == first_action(r.0 is Some, self@.len()),
            r.1.discarded() == Seq::new(self@.len(), |i: int| false),
    {
        let event = Event::new(ignore, state, raw, now);
        let dispatch = Dispatch::start(&event, self.keys.len());
        (event, dispatch)
    }
}

/// An event on an ignored path reaches no reactor: it gives no normalised
/// event, and dispatching no event finishes before any reactor is asked.
pub proof fn ignored_path_reaches_no_reactor(
    ignore: IgnoreMatcher,
    kind: NotifyKind,
    paths: Seq<Seq<char>>,
    count: nat,
)
    requires
        paths.len() > 0,
        ignore.ignores(paths[0]),
    ensures
        !yields_event(ignore, kind, paths),
        first_action(yields_event(ignore, kind, paths), count) == Action::Finish,
{
}

/// Whether an event calls for regenerating the project: a create or a
/// remove, an update of the project's configuration file, or a rename
/// whose path is gone and was not just seen.
pub open spec fn recompile_needed(
    kind: EventKind,
    file_name: Seq<char>,
    config_file: Seq<char>,
    path_exists: bool,
    seen: bool,
) -> bool {
    ||| kind == EventKind::Create
    ||| kind == EventKind::Remove
    ||| (kind == EventKind::ContentUpdate && file_name == config_file)
    ||| (kind == EventKind::Rename && !(path_exists || seen))
}

/// Whether `event` calls for regenerating a project whose configuration
/// file is named `config_file`; `path_exists` tells whether the event's path
/// exists now.
pub fn should_recompile(event: &Event, config_file: &str, path_exists: bool) -> (r: bool)
    ensures
        r == recompile_needed(event.kind, base_name(event.path@), config_file@, path_exists, event.seen),
{
    event.is_create_event() || event.is_remove_event() || (event.is_content_update_event()
        && str_eq(event.file_name(), config_file)) || (event.is_rename_event() && !(path_exists
        || event.is_seen()))
}

} // verus!
