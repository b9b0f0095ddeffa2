//! The process-wide map from project root to a live session, with
//! reference-counted client attachment.
use vstd::prelude::*;
use crate::text::str_eq;

verus! {

/// One registered project: its canonical root, the address of its
/// broadcast socket and the number of attached clients.
pub struct Registration {
    pub root: String,
    pub address: String,
    pub num_clients: u64,
}

/// What the registry holds for a root: the socket address and the client count.
pub type Entry = (Seq<char>, nat);

/// The registry after `root` registers, with `address` for a new session.
pub open spec fn register_step(m: Map<Seq<char>, Entry>, root: Seq<char>, address: Seq<char>) -> Map<
    Seq<char>,
    Entry,
> {
    if m.contains_key(root) {
        m.insert(root, (m[root].0, m[root].1 + 1))
    } else {
        m.insert(root, (address, 1nat))
    }
}

/// The registry after `root` unregisters: the last client removes the session.
pub open spec fn unregister_step(m: Map<Seq<char>, Entry>, root: Seq<char>) -> Map<Seq<char>, Entry> {
    if !m.contains_key(root) {
        m
    } else if m[root].1 <= 1 {
        m.remove(root)
    } else {
        m.insert(root, (m[root].0, (m[root].1 - 1) as nat))
    }
}

/// The number of clients attached to `root`; zero when it is not registered.
pub open spec fn clients_in(m: Map<Seq<char>, Entry>, root: Seq<char>) -> nat {
    if m.contains_key(root) {
        m[root].1
    } else {
        0
    }
}

/// What `unregister` did.
pub enum Unregistered {
    /// The root was not registered.
    NotFound,
    /// A client detached; others remain.
    Detached { remaining: u64 },
    /// The last client detached: the session is gone and its broadcast,
    /// whose address is given, must be closed.
    Removed { address: String },
}

/// Registered sessions, keyed by canonical root.
pub struct Registry {
    entries: Vec<Registration>,
    model: Ghost<Map<Seq<char>, Entry>>,
}

impl View for Registry {
    type V = Map<Seq<char>, Entry>;

    closed spec fn view(&self) -> Map<Seq<char>, Entry> {
        self.model@
    }
}

impl Registry {
    /// Entries agree with the model, roots are unique and every session
    /// has at least one client.
    pub closed spec fn wf(&self) -> bool {
        &&& forall|i: int|
            0 <= i < self.entries.len() ==> {
                &&& #[trigger] self.model@.contains_key(self.entries@[i].root@)
                &&& self.model@[self.entries@[i].root@] == (
                    self.entries@[i].address@,
                    self.entries@[i].num_clients as nat,
                )
                &&& self.entries@[i].num_clients >= 1
            }
        &&& forall|i: int, j: int|
            0 <= i < self.entries.len() && 0 <= j < self.entries.len() && i != j
                ==> self.entries@[i].root@ != self.entries@[j].root@
        &&& forall|k: Seq<char>|
            #[trigger] self.model@.contains_key(k) ==> exists|i: int|
                0 <= i < self.entries.len() && self.entries@[i].root@ == k
    }

    /// An empty registry.
    pub fn new() -> (r: Registry)
        ensures
            r.wf(),
            r@ == Map::<Seq<char>, Entry>::empty(),
    {
        Registry { entries: Vec::new(), model: Ghost(Map::empty()) }
    }

    fn find(&self, root: &str) -> (r: Option<usize>)
        requires
            self.wf(),
        ensures
            r matches Some(i) ==> i < self.entries.len() && self.entries@[i as int].root@ == root@,
            r is None ==> !self@.contains_key(root@),
    {
        let mut i: usize = 0;
        while i < self.entries.len()
            invariant
                self.wf(),
                i <= self.entries.len(),
                forall|k: int| 0 <= k < i ==> self.entries@[k].root@ != root@,
            decreases self.entries.len() - i,
        {
            if str_eq(self.entries[i].root.as_str(), root) {
                return Some(i);
            }
            i = i + 1;
        }
        None
    }

    /// Whether `root` is registered.
    pub fn contains(&self, root: &str) -> (r: bool)
        requires
            self.wf(),
        ensures
            r == self@.contains_key(root@),
    {
        match self.find(root) {
            Some(i) => {
                assert(self@.contains_key(self.entries@[i as int].root@));
                true
            },
            None => false,
        }
    }

    /// The number of clients attached to `root`, if it is registered.
    pub fn num_clients(&self, root: &str) -> (r: Option<u64>)
        requires
            self.wf(),
        ensures
            r is None <==> !self@.contains_key(root@),
            r matches Some(n) ==> n as nat == self@[root@].1,
    {
        match self.find(root) {
            Some(i) => {
                assert(self@.contains_key(self.entries@[i as int].root@));
                Some(self.entries[i].num_clients)
            },
            None => None,
        }
    }

    /// The broadcast address of `root`, if it is registered.
    pub fn address(&self, root: &str) -> (r: Option<String>)
        requires
            self.wf(),
        ensures
            r is None <==> !self@.contains_key(root@),
            r matches Some(a) ==> a@ == self@[root@].0,
    {
        match self.find(root) {
            Some(i) => {
                assert(self@.contains_key(self.entries@[i as int].root@));
                Some(self.entries[i].address.clone())
            },
            None => None,
        }
    }

    /// Attach a client to `root`. A registered root keeps its address and
    /// gains a client; a new root is inserted with `address` and one client.
    /// The address of the session is returned. Only a client count that
    /// cannot grow any further refuses the registration.
    pub fn register(&mut self, root: &str, address: String) -> (r: Option<String>)
        requires
            old(self).wf(),
        ensures
            final(self).wf(),
            r is None <==> (old(self)@.contains_key(root@) && old(self)@[root@].1 >= u64::MAX),
            r is None ==> final(self)@ == old(self)@,
            r matches Some(a) ==> final(self)@ == register_step(old(self)@, root@, address@)
                && a@ == final(self)@[root@].0,
    {
        match self.find(root) {
            Some(i) => {
                let old_entry = &self.entries[i];
                assert(self@.contains_key(self.entries@[i as int].root@));
                if old_entry.num_clients == u64::MAX {
                    return None;
                }
                let e = Registration {
                    root: old_entry.root.clone(),
                    address: old_entry.address.clone(),
                    num_clients: old_entry.num_clients + 1,
                };
                let a = e.address.clone();
                let ghost old_self = *self;
                self.model = Ghost(register_step(self.model@, root@, address@));
                self.entries.set(i, e);
                proof {
                    assert forall|k: Seq<char>| #[trigger] self.model@.contains_key(k) implies exists|
                        j: int,
                    | 0 <= j < self.entries.len() && self.entries@[j].root@ == k by {
                        assert(old_self.model@.contains_key(k));
                        let j = choose|j: int|
                            0 <= j < old_self.entries.len() && old_self.entries@[j].root@ == k;
                        assert(self.entries@[j].root@ == k);
                    }
                }
                Some(a)
            },
            None => {
                let a = address.clone();
                let e = Registration { root: String::from_str(root), address, num_clients: 1 };
                let ghost old_self = *self;
                self.model = Ghost(register_step(self.model@, root@, a@));
                self.entries.push(e);
                proof {
                    assert forall|k: Seq<char>| #[trigger] self.model@.contains_key(k) implies exists|
                        j: int,
                    | 0 <= j < self.entries.len() && self.entries@[j].root@ == k by {
                        if k == root@ {
                            assert(self.entries@[old_self.entries.len() as int].root@ == k);
                        } else {
                            assert(old_self.model@.contains_key(k));
                            let j = choose|j: int|
                                0 <= j < old_self.entries.len() && old_self.entries@[j].root@ == k;
                            assert(self.entries@[j].root@ == k);
                        }
                    }
                    assert forall|j: int| 0 <= j < old_self.entries.len() implies old_self.entries@[j].root@
                        != root@ by {
                        assert(old_self.model@.contains_key(old_self.entries@[j].root@));
                    }
                }
                Some(a)
            },
        }
    }

    /// Detach a client from `root`; the last one removes the session.
    pub fn unregister(&mut self, root: &str) -> (r: Unregistered)
        requires
            old(self).wf(),
        ensures
            final(self).wf(),
            final(self)@ == unregister_step(old(self)@, root@),
            r is NotFound <==> !old(self)@.contains_key(root@),
            r matches Unregistered::Detached { remaining } ==> remaining as nat == final(self)@[root@].1,
            r matches Unregistered::Removed { address } ==> address@ == old(self)@[root@].0
                && !final(self)@.contains_key(root@),
            old(self)@.contains_key(root@) ==> (r is Removed <==> old(self)@[root@].1 <= 1),
    {
        match self.find(root) {
            None => Unregistered::NotFound,
            Some(i) => {
                assert(self@.contains_key(self.entries@[i as int].root@));
                let ghost old_self = *self;
                if self.entries[i].num_clients <= 1 {
                    self.model = Ghost(unregister_step(self.model@, root@));
                    let e = self.entries.remove(i);
                    proof {
                        assert forall|k: Seq<char>| #[trigger] self.model@.contains_key(k) implies exists|
                            j: int,
                        | 0 <= j < self.entries.len() && self.entries@[j].root@ == k by {
                            assert(old_self.model@.contains_key(k));
                            let j = choose|j: int|
                                0 <= j < old_self.entries.len() && old_self.entries@[j].root@ == k;
                            if j < i {
                                assert(self.entries@[j].root@ == k);
                            } else {
                                assert(self.entries@[j - 1].root@ == k);
                            }
                        }
                        assert forall|j: int| 0 <= j < self.entries.len() implies #[trigger] self.model@.contains_key(
                            self.entries@[j].root@,
                        ) && self.model@[self.entries@[j].root@] == (
                            self.entries@[j].address@,
                            self.entries@[j].num_clients as nat,
                        ) && self.entries@[j].num_clients >= 1 by {
                            if j < i {
                                assert(old_self.entries@[j] == self.entries@[j]);
                                assert(old_self.entries@[j].root@ != root@);
                                assert(old_self.model@.contains_key(old_self.entries@[j].root@));
                            } else {
                                assert(old_self.entries@[j + 1] == self.entries@[j]);
                                assert(old_self.entries@[j + 1].root@ != root@);
                                assert(old_self.model@.contains_key(old_self.entries@[j + 1].root@));
                            }
                        }
                        assert forall|a: int, b: int|
                            0 <= a < self.entries.len() && 0 <= b < self.entries.len() && a != b
                                implies self.entries@[a].root@ != self.entries@[b].root@ by {
                            let oa = if a < i { a } else { a + 1 };
                            let ob = if b < i { b } else { b + 1 };
                            assert(old_self.entries@[oa] == self.entries@[a]);
                            assert(old_self.entries@[ob] == self.entries@[b]);
                        }
                    }
                    Unregistered::Removed { address: e.address }
                } else {
                    let old_entry = &self.entries[i];
                    let e = Registration {
                        root: old_entry.root.clone(),
                        address: old_entry.address.clone(),
                        num_clients: old_entry.num_clients - 1,
                    };
                    let remaining = e.num_clients;
                    self.model = Ghost(unregister_step(self.model@, root@));
                    self.entries.set(i, e);
                    proof {
                        assert forall|k: Seq<char>| #[trigger] self.model@.contains_key(k) implies exists|
                            j: int,
                        | 0 <= j < self.entries.len() && self.entries@[j].root@ == k by {
                            assert(old_self.model@.contains_key(k));
                            let j = choose|j: int|
                                0 <= j < old_self.entries.len() && old_self.entries@[j].root@ == k;
                            assert(self.entries@[j].root@ == k);
                        }
                    }
                    Unregistered::Detached { remaining }
                }
            },
        }
    }
}


/// A call made on the registry.
pub enum RegistryOp {
    Register { root: Seq<char>, address: Seq<char> },
    Unregister { root: Seq<char> },
}

/// The registry after each call of `ops` in turn, starting from `m`.
pub open spec fn run_ops(m: Map<Seq<char>, Entry>, ops: Seq<RegistryOp>) -> Map<Seq<char>, Entry>
    decreases ops.len(),
{
    if ops.len() == 0 {
        m
    } else {
        let prev = run_ops(m, ops.drop_last());
        match ops.last() {
            RegistryOp::Register { root, address } => register_step(prev, root, address),
            RegistryOp::Unregister { root } => unregister_step(prev, root),
        }
    }
}

/// How many calls of `ops` register `root`.
pub open spec fn registers(ops: Seq<RegistryOp>, root: Seq<char>) -> nat
    decreases ops.len(),
{
    if ops.len() == 0 {
        0
    } else {
        registers(ops.drop_last(), root) + match ops.last() {
            RegistryOp::Register { root: r, .. } => if r == root { 1nat } else { 0nat },
            RegistryOp::Unregister { .. } => 0nat,
        }
    }
}

/// How many calls of `ops` unregister `root`.
pub open spec fn unregisters(ops: Seq<RegistryOp>, root: Seq<char>) -> nat
    decreases ops.len(),
{
    if ops.len() == 0 {
        0
    } else {
        unregisters(ops.drop_last(), root) + match ops.last() {
            RegistryOp::Unregister { root: r } => if r == root { 1nat } else { 0nat },
            RegistryOp::Register { .. } => 0nat,
        }
    }
}

/// No prefix of `ops` unregisters `root` more often than it registers it.
pub open spec fn never_over_released(ops: Seq<RegistryOp>, root: Seq<char>) -> bool {
    forall|n: int| 0 <= n <= ops.len() ==> unregisters(#[trigger] ops.take(n), root) <= registers(ops.take(n), root)
}

/// Starting from an empty registry, the clients of a root number its
/// registrations minus its unregistrations, and the session exists exactly
/// while that difference is positive.
pub proof fn clients_count_calls(ops: Seq<RegistryOp>, root: Seq<char>)
    requires
        never_over_released(ops, root),
    ensures
        clients_in(run_ops(Map::empty(), ops), root) == registers(ops, root) - unregisters(ops, root),
        run_ops(Map::empty(), ops).contains_key(root) <==> registers(ops, root) > unregisters(ops, root),
    decreases ops.len(),
{
    if ops.len() > 0 {
        let pre = ops.drop_last();
        assert forall|n: int| 0 <= n <= pre.len() implies unregisters(#[trigger] pre.take(n), root)
            <= registers(pre.take(n), root) by {
            assert(pre.take(n) =~= ops.take(n));
        }
        clients_count_calls(pre, root);
        assert(ops.take(ops.len() as int) =~= ops);
        let prev = run_ops(Map::empty(), pre);
        assert(prev.contains_key(root) ==> prev[root].1 >= 1);
    }
}

} // verus!
