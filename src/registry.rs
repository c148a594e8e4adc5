//! The registry of open ports: a map from port path to the port's record,
//! with at most one record per path.

use crate::device::PortHandle;
use vstd::prelude::*;

verus! {

/// The record of one open port: its handle and, while a background listener
/// runs for it, the listener's controls.
pub struct SerialportInfo<L> {
    /// The open connection.
    pub serialport: PortHandle,
    /// The controls of the active listener; `None` when none runs.
    pub listener: Option<L>,
}

impl<L> SerialportInfo<L> {
    /// The record of a freshly opened port: no listener.
    pub fn new(serialport: PortHandle) -> (r: Self)
        ensures
            r.serialport == serialport,
            r.listener is None,
    {
        SerialportInfo { serialport, listener: None }
    }
}

/// One registry entry: a path and the record stored under it.
pub struct PortEntry<L> {
    /// The port's path, the registry key.
    pub path: String,
    /// The port's record.
    pub info: SerialportInfo<L>,
}

/// Whether some entry of `s` has the path `k`.
pub open spec fn has_path<L>(s: Seq<PortEntry<L>>, k: Seq<char>) -> bool {
    exists|i: int| 0 <= i < s.len() && s[i].path@ == k
}

/// No two entries of `s` share a path.
pub open spec fn unique_paths<L>(s: Seq<PortEntry<L>>) -> bool {
    forall|i: int, j: int|
        0 <= i < s.len() && 0 <= j < s.len() && s[i].path@ == s[j].path@ ==> i == j
}

/// The map from path to record that the entries `s` describe.
pub open spec fn entries_map<L>(s: Seq<PortEntry<L>>) -> Map<Seq<char>, SerialportInfo<L>> {
    Map::new(
        |k: Seq<char>| has_path(s, k),
        |k: Seq<char>| s[choose|i: int| 0 <= i < s.len() && s[i].path@ == k].info,
    )
}

/// The record stored under an entry's path is that entry's record.
pub proof fn lemma_lookup<L>(s: Seq<PortEntry<L>>, i: int)
    requires
        unique_paths(s),
        0 <= i < s.len(),
    ensures
        entries_map(s).contains_key(s[i].path@),
        entries_map(s)[s[i].path@] == s[i].info,
{
    let k = s[i].path@;
    assert(has_path(s, k));
    let j = choose|j: int| 0 <= j < s.len() && s[j].path@ == k;
    assert(s[j].path@ == s[i].path@);
}

/// Replacing an entry by one with the same path stores its record under
/// that path and changes nothing else.
pub proof fn lemma_set_entry<L>(s: Seq<PortEntry<L>>, i: int, e: PortEntry<L>)
    requires
        unique_paths(s),
        0 <= i < s.len(),
        e.path@ == s[i].path@,
    ensures
        unique_paths(s.update(i, e)),
        entries_map(s.update(i, e)) == entries_map(s).insert(s[i].path@, e.info),
{
    let t = s.update(i, e);
    assert(unique_paths(t)) by {
        assert forall|a: int, b: int|
            0 <= a < t.len() && 0 <= b < t.len() && t[a].path@ == t[b].path@ implies a == b by {
            assert(t[a].path@ == s[a].path@);
            assert(t[b].path@ == s[b].path@);
        }
    }
    let m = entries_map(s).insert(s[i].path@, e.info);
    assert forall|k: Seq<char>| #[trigger] m.contains_key(k) == entries_map(t).contains_key(k) by {
        if has_path(s, k) {
            let j = choose|j: int| 0 <= j < s.len() && s[j].path@ == k;
            assert(t[j].path@ == k);
        }
        if has_path(t, k) {
            let j = choose|j: int| 0 <= j < t.len() && t[j].path@ == k;
            assert(s[j].path@ == k);
        }
    }
    assert forall|k: Seq<char>| #[trigger] m.contains_key(k) implies m[k] == entries_map(t)[k] by {
        let j = choose|j: int| 0 <= j < t.len() && t[j].path@ == k;
        lemma_lookup(t, j);
        if j != i {
            lemma_lookup(s, j);
        }
    }
    assert(m =~= entries_map(t));
}

/// `lemma_set_entry` for every replacement entry at once.
pub proof fn lemma_set_entry_any<L>(s: Seq<PortEntry<L>>, i: int)
    requires
        unique_paths(s),
        0 <= i < s.len(),
    ensures
        forall|e: PortEntry<L>|
            e.path@ == s[i].path@ ==> unique_paths(#[trigger] s.update(i, e)) && entries_map(
                s.update(i, e),
            ) == entries_map(s).insert(s[i].path@, e.info),
{
    assert forall|e: PortEntry<L>| e.path@ == s[i].path@ implies unique_paths(
        #[trigger] s.update(i, e),
    ) && entries_map(s.update(i, e)) == entries_map(s).insert(s[i].path@, e.info) by {
        lemma_set_entry(s, i, e);
    }
}

/// Appending an entry with a new path adds its record and changes nothing else.
pub proof fn lemma_push_entry<L>(s: Seq<PortEntry<L>>, e: PortEntry<L>)
    requires
        unique_paths(s),
        !has_path(s, e.path@),
    ensures
        unique_paths(s.push(e)),
        entries_map(s.push(e)) == entries_map(s).insert(e.path@, e.info),
{
    let t = s.push(e);
    assert(unique_paths(t)) by {
        assert forall|a: int, b: int|
            0 <= a < t.len() && 0 <= b < t.len() && t[a].path@ == t[b].path@ implies a == b by {
            if a < s.len() {
                assert(t[a] == s[a]);
            }
            if b < s.len() {
                assert(t[b] == s[b]);
            }
        }
    }
    let m = entries_map(s).insert(e.path@, e.info);
    assert forall|k: Seq<char>| #[trigger] m.contains_key(k) == entries_map(t).contains_key(k) by {
        if has_path(s, k) {
            let j = choose|j: int| 0 <= j < s.len() && s[j].path@ == k;
            assert(t[j] == s[j]);
        }
        if k == e.path@ {
            assert(t[s.len() as int] == e);
        }
        if has_path(t, k) {
            let j = choose|j: int| 0 <= j < t.len() && t[j].path@ == k;
            if j < s.len() {
                assert(t[j] == s[j]);
            }
        }
    }
    assert forall|k: Seq<char>| #[trigger] m.contains_key(k) implies m[k] == entries_map(t)[k] by {
        let j = choose|j: int| 0 <= j < t.len() && t[j].path@ == k;
        lemma_lookup(t, j);
        if j < s.len() {
            assert(t[j] == s[j]);
            lemma_lookup(s, j);
        } else {
            assert(t[j] == e);
        }
    }
    assert(m =~= entries_map(t));
}

/// Removing the entry at `i` removes its path and changes nothing else.
pub proof fn lemma_remove_entry<L>(s: Seq<PortEntry<L>>, i: int)
    requires
        unique_paths(s),
        0 <= i < s.len(),
    ensures
        unique_paths(s.remove(i)),
        entries_map(s.remove(i)) == entries_map(s).remove(s[i].path@),
{
    let t = s.remove(i);
    assert forall|a: int| 0 <= a < t.len() implies #[trigger] t[a] == s[if a < i { a } else { a + 1 }] by {}
    assert(unique_paths(t)) by {
        assert forall|a: int, b: int|
            0 <= a < t.len() && 0 <= b < t.len() && t[a].path@ == t[b].path@ implies a == b by {
            assert(t[a] == s[if a < i { a } else { a + 1 }]);
            assert(t[b] == s[if b < i { b } else { b + 1 }]);
        }
    }
    let m = entries_map(s).remove(s[i].path@);
    assert forall|k: Seq<char>| #[trigger] m.contains_key(k) == entries_map(t).contains_key(k) by {
        if has_path(s, k) && k != s[i].path@ {
            let j = choose|j: int| 0 <= j < s.len() && s[j].path@ == k;
            let a = if j < i { j } else { j - 1 };
            assert(t[a] == s[j]);
        }
        if has_path(t, k) {
            let a = choose|a: int| 0 <= a < t.len() && t[a].path@ == k;
            assert(t[a] == s[if a < i { a } else { a + 1 }]);
        }
    }
    assert forall|k: Seq<char>| #[trigger] m.contains_key(k) implies m[k] == entries_map(t)[k] by {
        let a = choose|a: int| 0 <= a < t.len() && t[a].path@ == k;
        lemma_lookup(t, a);
        assert(t[a] == s[if a < i { a } else { a + 1 }]);
        lemma_lookup(s, if a < i { a } else { a + 1 });
    }
    assert(m =~= entries_map(t));
}

/// All open ports, keyed by path. One instance is owned by the host and
/// handed to each command; exclusive access (`&mut`) is the critical section.
pub struct SerialportState<L> {
    pub(crate) entries: Vec<PortEntry<L>>,
}

impl<L> View for SerialportState<L> {
    type V = Map<Seq<char>, SerialportInfo<L>>;

    closed spec fn view(&self) -> Map<Seq<char>, SerialportInfo<L>> {
        entries_map(self.entries@)
    }
}

impl<L> SerialportState<L> {
    /// Well-formedness: no path is stored twice.
    pub closed spec fn wf(&self) -> bool {
        unique_paths(self.entries@)
    }

    /// The number of entries.
    pub closed spec fn size(&self) -> nat {
        self.entries@.len()
    }

    /// The path of the entry at position `i`.
    pub closed spec fn key_at(&self, i: int) -> Seq<char> {
        self.entries@[i].path@
    }

    /// An empty registry.
    pub fn new() -> (r: Self)
        ensures
            r.wf(),
            r@ == Map::<Seq<char>, SerialportInfo<L>>::empty(),
    {
        let r = SerialportState { entries: Vec::new() };
        assert(r@ =~= Map::<Seq<char>, SerialportInfo<L>>::empty());
        r
    }

    /// The position of the entry for `path`, if there is one.
    pub fn find(&self, path: &String) -> (r: Option<usize>)
        requires
            self.wf(),
        ensures
            r is None <==> !self@.contains_key(path@),
            r matches Some(i) ==> i < self.size() && self.key_at(i as int) == path@,
    {
        let mut i: usize = 0;
        while i < self.entries.len()
            invariant
                self.wf(),
                i <= self.entries@.len(),
                forall|j: int| 0 <= j < i ==> self.entries@[j].path@ != path@,
            decreases self.entries@.len() - i,
        {
            if self.entries[i].path == *path {
                proof {
                    lemma_lookup(self.entries@, i as int);
                }
                return Some(i);
            }
            i = i + 1;
        }
        None
    }

    /// Whether a port is registered under `path`.
    pub fn contains(&self, path: &String) -> (r: bool)
        requires
            self.wf(),
        ensures
            r == self@.contains_key(path@),
    {
        self.find(path).is_some()
    }

    /// Registers `info` under a path that is not registered yet.
    pub fn insert(&mut self, path: String, info: SerialportInfo<L>)
        requires
            old(self).wf(),
            !old(self)@.contains_key(path@),
        ensures
            final(self).wf(),
            final(self)@ == old(self)@.insert(path@, info),
    {
        let e = PortEntry { path, info };
        proof {
            lemma_push_entry(self.entries@, e);
        }
        self.entries.push(e);
    }

    /// Takes the record of `path` out of the registry; `None` when absent.
    pub fn remove(&mut self, path: &String) -> (r: Option<SerialportInfo<L>>)
        requires
            old(self).wf(),
        ensures
            final(self).wf(),
            old(self)@.contains_key(path@) ==> r == Some(old(self)@[path@])
                && final(self)@ == old(self)@.remove(path@),
            !old(self)@.contains_key(path@) ==> r is None && final(self)@ == old(self)@,
    {
        match self.find(path) {
            None => None,
            Some(i) => {
                proof {
                    lemma_lookup(self.entries@, i as int);
                    lemma_remove_entry(self.entries@, i as int);
                }
                let e = self.entries.remove(i);
                Some(e.info)
            },
        }
    }

    /// Puts `listener` in the listener slot of `path` and hands back what
    /// the slot held; `None` when `path` is absent.
    pub fn replace_listener(&mut self, path: &String, listener: Option<L>) -> (r: Option<
        Option<L>,
    >)
        requires
            old(self).wf(),
        ensures
            final(self).wf(),
            old(self)@.contains_key(path@) ==> r == Some(old(self)@[path@].listener)
                && final(self)@ == old(self)@.insert(
                path@,
                (SerialportInfo { serialport: old(self)@[path@].serialport, listener }),
            ),
            !old(self)@.contains_key(path@) ==> r is None && final(self)@ == old(self)@,
    {
        match self.find(path) {
            None => None,
            Some(i) => {
                let ghost s = self.entries@;
                proof {
                    lemma_lookup(s, i as int);
                }
                let mut slot = listener;
                std::mem::swap(&mut slot, &mut self.entries[i].info.listener);
                proof {
                    lemma_set_entry(s, i as int, self.entries@[i as int]);
                    assert(s.update(i as int, self.entries@[i as int]) =~= self.entries@);
                }
                Some(slot)
            },
        }
    }

    /// The handle of the entry at position `i`, to use in place.
    pub fn handle_mut(&mut self, i: usize) -> (r: &mut PortHandle)
        requires
            old(self).wf(),
            i < old(self).size(),
        ensures
            old(self)@.contains_key(old(self).key_at(i as int)),
            *r == old(self)@[old(self).key_at(i as int)].serialport,
            final(self).wf(),
            final(self).size() == old(self).size(),
            forall|j: int| 0 <= j < old(self).size() ==> final(self).key_at(j) == old(self).key_at(j),
            final(self)@ == old(self)@.insert(
                old(self).key_at(i as int),
                (SerialportInfo {
                    serialport: *final(r),
                    listener: old(self)@[old(self).key_at(i as int)].listener,
                }),
            ),
    {
        let ghost s = self.entries@;
        proof {
            lemma_lookup(s, i as int);
            lemma_set_entry_any(s, i as int);
        }
        &mut self.entries[i].info.serialport
    }

    /// The handle of the entry at position `i`.
    pub fn handle(&self, i: usize) -> (r: &PortHandle)
        requires
            self.wf(),
            i < self.size(),
        ensures
            self@.contains_key(self.key_at(i as int)),
            *r == self@[self.key_at(i as int)].serialport,
    {
        proof {
            lemma_lookup(self.entries@, i as int);
        }
        &self.entries[i].info.serialport
    }

    /// The registered paths, each once.
    pub fn keys(&self) -> (r: Vec<String>)
        requires
            self.wf(),
        ensures
            r@.len() == self@.dom().len(),
            forall|k: Seq<char>| self@.contains_key(k) <==> exists|j: int| 0 <= j < r@.len() && r@[j]@ == k,
            forall|a: int, b: int| 0 <= a < r@.len() && 0 <= b < r@.len() && r@[a]@ == r@[b]@ ==> a == b,
    {
        let mut r: Vec<String> = Vec::new();
        let mut i: usize = 0;
        while i < self.entries.len()
            invariant
                i <= self.entries@.len(),
                r@.len() == i,
                forall|j: int| 0 <= j < i ==> #[trigger] r@[j]@ == self.entries@[j].path@,
            decreases self.entries@.len() - i,
        {
            r.push(self.entries[i].path.clone());
            i = i + 1;
        }
        proof {
            lemma_dom_len(self.entries@);
            assert forall|k: Seq<char>| self@.contains_key(k) implies exists|j: int| 0 <= j < r@.len() && r@[j]@ == k by {
                let j = choose|j: int| 0 <= j < self.entries@.len() && self.entries@[j].path@ == k;
                assert(r@[j]@ == k);
            }
            assert forall|k: Seq<char>| (exists|j: int| 0 <= j < r@.len() && r@[j]@ == k) implies self@.contains_key(k) by {
                let j = choose|j: int| 0 <= j < r@.len() && r@[j]@ == k;
                assert(self.entries@[j].path@ == k);
            }
            assert forall|a: int, b: int| 0 <= a < r@.len() && 0 <= b < r@.len() && r@[a]@ == r@[b]@ implies a == b by {
                assert(self.entries@[a].path@ == self.entries@[b].path@);
            }
        }
        r
    }

    /// Empties the registry and hands back every entry it held.
    pub fn drain(&mut self) -> (r: Vec<PortEntry<L>>)
        requires
            old(self).wf(),
        ensures
            final(self).wf(),
            final(self)@ == Map::<Seq<char>, SerialportInfo<L>>::empty(),
            unique_paths(r@),
            entries_map(r@) == old(self)@,
    {
        let mut r: Vec<PortEntry<L>> = Vec::new();
        std::mem::swap(&mut r, &mut self.entries);
        assert(self@ =~= Map::<Seq<char>, SerialportInfo<L>>::empty());
        r
    }
}

/// The number of registered paths is the number of entries.
pub proof fn lemma_dom_len<L>(s: Seq<PortEntry<L>>)
    requires
        unique_paths(s),
    ensures
        entries_map(s).dom().len() == s.len(),
        entries_map(s).dom().finite(),
    decreases s.len(),
{
    if s.len() == 0 {
        assert(entries_map(s).dom() =~= Set::<Seq<char>>::empty());
    } else {
        let i = s.len() - 1;
        lemma_remove_entry(s, i);
        lemma_dom_len(s.remove(i));
        lemma_lookup(s, i);
        assert(entries_map(s.remove(i)).dom() =~= entries_map(s).dom().remove(s[i].path@));
    }
}

} // verus!
