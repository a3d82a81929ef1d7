//! Listeners registered per kind of event, and which of them an event runs.
use vstd::prelude::*;
use std::collections::HashMap;

verus! {

broadcast use vstd::std_specs::hash::group_hash_axioms;

/// A registered listener: the number by which its callback is known, and
/// whether a filter decides, event by event, if it runs.
#[derive(Debug, Clone, Copy, PartialEq, Eq, Structural)]
pub struct Listener {
    pub id: u64,
    pub filtered: bool,
}

/// The listeners of each kind of event, in the order they were registered.
pub struct EventEmitter {
    listeners: HashMap<u64, Vec<Listener>>,
}

/// The listeners of a kind in a registry.
pub open spec fn listeners_in(m: Map<u64, Seq<Listener>>, kind: u64) -> Seq<Listener> {
    if m.contains_key(kind) {
        m[kind]
    } else {
        Seq::empty()
    }
}

/// The callbacks that an event runs, in registration order: every listener
/// without a filter, and every filtered listener whose filter passed.
pub open spec fn selected(ls: Seq<Listener>, verdicts: Seq<bool>) -> Seq<u64>
    decreases ls.len(),
{
    if ls.len() == 0 {
        Seq::empty()
    } else {
        let rest = selected(ls.drop_last(), verdicts);
        let last = ls.last();
        if !last.filtered || verdicts[ls.len() - 1] {
            rest.push(last.id)
        } else {
            rest
        }
    }
}

impl View for EventEmitter {
    type V = Map<u64, Seq<Listener>>;

    closed spec fn view(&self) -> Map<u64, Seq<Listener>> {
        self.listeners@.map_values(|v: Vec<Listener>| v@)
    }
}

impl EventEmitter {
    pub fn new() -> (res: EventEmitter)
        ensures
            res@ == Map::<u64, Seq<Listener>>::empty(),
    {
        let res = EventEmitter { listeners: HashMap::new() };
        assert(res@ =~= Map::<u64, Seq<Listener>>::empty());
        res
    }

    fn add(&mut self, kind: u64, listener: Listener)
        ensures
            final(self)@ == old(self)@.insert(kind, listeners_in(old(self)@, kind).push(listener)),
    {
        let mut list = match self.listeners.remove(&kind) {
            Some(v) => v,
            None => Vec::new(),
        };
        list.push(listener);
        self.listeners.insert(kind, list);
        assert(self@ =~= old(self)@.insert(kind, listeners_in(old(self)@, kind).push(listener)));
    }

    /// Registers a listener that every event of the kind runs.
    pub fn on(&mut self, kind: u64, id: u64)
        ensures
            final(self)@ == old(self)@.insert(kind, listeners_in(old(self)@, kind).push(Listener { id, filtered: false })),
    {
        self.add(kind, Listener { id, filtered: false });
    }

    /// Registers a listener that runs when its filter passes.
    pub fn on_filter(&mut self, kind: u64, id: u64)
        ensures
            final(self)@ == old(self)@.insert(kind, listeners_in(old(self)@, kind).push(Listener { id, filtered: true })),
    {
        self.add(kind, Listener { id, filtered: true });
    }

    /// The listeners of a kind, in registration order; with none, emitting
    /// the event does nothing at all.
    pub fn listeners_of(&self, kind: u64) -> (res: Vec<Listener>)
        ensures
            res@ == listeners_in(self@, kind),
    {
        match self.listeners.get(&kind) {
            Some(v) => v.clone(),
            None => Vec::new(),
        }
    }

    /// The callbacks that an event of the kind runs, given the verdict of
    /// each listener's filter (ignored for listeners without one).
    pub fn dispatch(&self, kind: u64, verdicts: &Vec<bool>) -> (res: Vec<u64>)
        requires
            verdicts@.len() == listeners_in(self@, kind).len(),
        ensures
            res@ == selected(listeners_in(self@, kind), verdicts@),
    {
        let ls = self.listeners_of(kind);
        let mut out: Vec<u64> = Vec::new();
        let mut i: usize = 0;
        while i < ls.len()
            invariant
                i <= ls@.len(),
                verdicts@.len() == ls@.len(),
                out@ == selected(ls@.subrange(0, i as int), verdicts@),
            decreases ls@.len() - i,
        {
            let l = ls[i];
            assert(ls@.subrange(0, i + 1).drop_last() =~= ls@.subrange(0, i as int));
            if !l.filtered || verdicts[i] {
                out.push(l.id);
            }
            i = i + 1;
        }
        assert(ls@.subrange(0, ls@.len() as int) =~= ls@);
        out
    }
}

/// A listener without a filter is run by every event of its kind, whatever
/// the filters of the others say.
pub proof fn unfiltered_listener_always_runs(ls: Seq<Listener>, verdicts: Seq<bool>, i: int)
    requires
        0 <= i < ls.len(),
        !ls[i].filtered,
    ensures
        selected(ls, verdicts).contains(ls[i].id),
    decreases ls.len(),
{
    if i == ls.len() - 1 {
        assert(selected(ls, verdicts).last() == ls[i].id);
    } else {
        unfiltered_listener_always_runs(ls.drop_last(), verdicts, i);
        let rest = selected(ls.drop_last(), verdicts);
        let j = choose|j: int| 0 <= j < rest.len() && rest[j] == ls[i].id;
        if !ls.last().filtered || verdicts[ls.len() - 1] {
            assert(rest.push(ls.last().id)[j] == ls[i].id);
        }
    }
}

/// Registering a listener for one kind of event leaves the listeners of every
/// other kind as they were, and puts the new one after the earlier ones.
pub proof fn registration_keeps_others(m: Map<u64, Seq<Listener>>, kind: u64, l: Listener, other: u64)
    requires
        other != kind,
    ensures
        listeners_in(m.insert(kind, listeners_in(m, kind).push(l)), other) == listeners_in(m, other),
        listeners_in(m.insert(kind, listeners_in(m, kind).push(l)), kind) == listeners_in(m, kind).push(l),
{
}

} // verus!
