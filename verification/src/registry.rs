//! The table that maps job type names to their handlers.

use vstd::prelude::*;

verus! {

/// A job type's registration: its name and the handler that runs its
/// payloads.
pub struct JobRegistration<H> {
    pub name: &'static str,
    pub handler: H,
}

/// The handler each name maps to after registering `entries` in order, a
/// later registration of a name replacing an earlier one.
pub open spec fn dispatch_map<H>(entries: Seq<(Seq<char>, H)>) -> Map<Seq<char>, H>
    decreases entries.len(),
{
    if entries.len() == 0 {
        Map::empty()
    } else {
        dispatch_map(entries.drop_last()).insert(entries.last().0, entries.last().1)
    }
}

/// Job type names and their handlers.
pub struct DispatchTable<H> {
    names: Vec<String>,
    handlers: Vec<H>,
}

impl<H> DispatchTable<H> {
    /// The registrations the table was built from, in order.
    pub closed spec fn entries(&self) -> Seq<(Seq<char>, H)> {
        Seq::new(self.names@.len(), |i: int| (self.names@[i]@, self.handlers@[i]))
    }

    /// The handler of each registered name.
    pub open spec fn map(&self) -> Map<Seq<char>, H> {
        dispatch_map(self.entries())
    }

    /// The table is well formed when it has one handler per name.
    pub closed spec fn wf(&self) -> bool {
        self.names@.len() == self.handlers@.len()
    }

    /// The table of the given registrations.
    pub fn from_registrations(regs: Vec<JobRegistration<H>>) -> (t: DispatchTable<H>)
        ensures
            t.wf(),
            t.entries() == regs@.map_values(|r: JobRegistration<H>| (r.name@, r.handler)),
    {
        let ghost all = regs@;
        let mut names: Vec<String> = Vec::new();
        let mut handlers: Vec<H> = Vec::new();
        for reg in it: regs.into_iter()
            invariant
                it.seq() == all,
                names@.len() == it.index(),
                handlers@.len() == it.index(),
                forall|k: int| 0 <= k < it.index() ==> #[trigger] names@[k]@ == all[k].name@ && handlers@[k] == all[k].handler,
        {
            names.push(String::from_str(reg.name));
            handlers.push(reg.handler);
        }
        let t = DispatchTable { names, handlers };
        assert(t.entries() =~= all.map_values(|r: JobRegistration<H>| (r.name@, r.handler)));
        t
    }

    /// The handler registered (last) under `name`, if any.
    pub fn get(&self, name: &str) -> (r: Option<&H>)
        requires
            self.wf(),
        ensures
            match r {
                Some(h) => self.map().contains_key(name@) && *h == self.map()[name@],
                None => !self.map().contains_key(name@),
            },
    {
        let key = String::from_str(name);
        let n = self.names.len();
        let mut j: usize = n;
        while j > 0
            invariant
                j <= n,
                n == self.names@.len(),
                self.wf(),
                key@ == name@,
                forall|k: int| j <= k < n ==> #[trigger] self.names@[k]@ != name@,
            decreases j,
        {
            if self.names[j - 1] == key {
                proof {
                    lemma_later_entries_miss(self.entries(), j as int, name@);
                    assert(self.entries().take(j as int).drop_last() =~= self.entries().take(j - 1));
                }
                return Some(&self.handlers[j - 1]);
            }
            j = j - 1;
        }
        proof {
            lemma_later_entries_miss(self.entries(), 0, name@);
            assert(self.entries().take(0) =~= Seq::<(Seq<char>, H)>::empty());
        }
        None
    }
}

/// Entries from position `j` on that do not carry `name` leave its mapping
/// as the first `j` entries made it.
pub proof fn lemma_later_entries_miss<H>(entries: Seq<(Seq<char>, H)>, j: int, name: Seq<char>)
    requires
        0 <= j <= entries.len(),
        forall|k: int| j <= k < entries.len() ==> #[trigger] entries[k].0 != name,
    ensures
        dispatch_map(entries).contains_key(name) == dispatch_map(entries.take(j)).contains_key(name),
        dispatch_map(entries).contains_key(name) ==> dispatch_map(entries)[name] == dispatch_map(entries.take(j))[name],
    decreases entries.len() - j,
{
    if j < entries.len() {
        let shorter = entries.drop_last();
        assert forall|k: int| j <= k < shorter.len() implies #[trigger] shorter[k].0 != name by {
            assert(shorter[k] == entries[k]);
        }
        lemma_later_entries_miss(shorter, j, name);
        assert(shorter.take(j) =~= entries.take(j));
    } else {
        assert(entries.take(j) =~= entries);
    }
}

/// Registering a name again replaces its handler: looking the name up gives
/// the handler of its last registration.
pub proof fn lemma_last_registration_wins<H>(entries: Seq<(Seq<char>, H)>, name: Seq<char>, h: H)
    ensures
        dispatch_map(entries.push((name, h))).contains_key(name),
        dispatch_map(entries.push((name, h)))[name] == h,
{
    assert(entries.push((name, h)).drop_last() =~= entries);
}

/// The names of a run of registrations.
pub open spec fn registered_names<H>(entries: Seq<(Seq<char>, H)>) -> Set<Seq<char>> {
    Set::new(|n: Seq<char>| exists|i: int| 0 <= i < entries.len() && #[trigger] entries[i].0 == n)
}

/// With pairwise distinct names (each job type registered once), the table
/// maps exactly the registered names, as many as there are registrations,
/// each to the handler registered with it.
pub proof fn lemma_distinct_names_dispatch<H>(entries: Seq<(Seq<char>, H)>)
    requires
        forall|i: int, j: int| 0 <= i < j < entries.len() ==> #[trigger] entries[i].0 != #[trigger] entries[j].0,
    ensures
        dispatch_map(entries).dom() == registered_names(entries),
        dispatch_map(entries).dom().finite(),
        dispatch_map(entries).dom().len() == entries.len(),
        forall|i: int| 0 <= i < entries.len() ==> #[trigger] dispatch_map(entries)[entries[i].0] == entries[i].1,
    decreases entries.len(),
{
    if entries.len() > 0 {
        let rest = entries.drop_last();
        let last = entries.last();
        assert forall|i: int, j: int| 0 <= i < j < rest.len() implies #[trigger] rest[i].0 != #[trigger] rest[j].0 by {
            assert(entries[i].0 != entries[j].0);
        }
        lemma_distinct_names_dispatch(rest);
        assert(!registered_names(rest).contains(last.0)) by {
            if registered_names(rest).contains(last.0) {
                let i = choose|i: int| 0 <= i < rest.len() && #[trigger] rest[i].0 == last.0;
                assert(entries[i].0 != entries[entries.len() - 1].0);
            }
        }
        assert(dispatch_map(entries).dom() =~= registered_names(entries)) by {
            assert forall|n: Seq<char>| #[trigger] registered_names(entries).contains(n)
                implies dispatch_map(entries).dom().contains(n) by {
                let i = choose|i: int| 0 <= i < entries.len() && #[trigger] entries[i].0 == n;
                if i < rest.len() {
                    assert(rest[i].0 == n);
                }
            }
            assert forall|n: Seq<char>| #[trigger] dispatch_map(entries).dom().contains(n)
                implies registered_names(entries).contains(n) by {
                if n == last.0 {
                    assert(entries[entries.len() - 1].0 == n);
                } else {
                    let i = choose|i: int| 0 <= i < rest.len() && #[trigger] rest[i].0 == n;
                    assert(entries[i].0 == n);
                }
            }
        }
        assert forall|i: int| 0 <= i < entries.len() implies #[trigger] dispatch_map(entries)[entries[i].0] == entries[i].1 by {
            if i < rest.len() {
                assert(rest[i] == entries[i]);
                assert(entries[i].0 != entries[entries.len() - 1].0);
            }
        }
    } else {
        assert(dispatch_map(entries).dom() =~= registered_names(entries));
    }
}

} // verus!
