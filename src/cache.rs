use vstd::prelude::*;
use crate::graph::OutputId;
use crate::value::{MyValueType, ValueView};

verus! {

/// The values computed during one evaluation, keyed by the output that produced them.
pub struct OutputsCache {
    entries: Vec<(OutputId, MyValueType)>,
}

pub open spec fn keys_unique(s: Seq<(OutputId, MyValueType)>) -> bool {
    forall|i: int, j: int| 0 <= i < j < s.len() ==> #[trigger] s[i].0 != #[trigger] s[j].0
}

pub open spec fn holds_key(s: Seq<(OutputId, MyValueType)>, o: OutputId) -> bool {
    exists|i: int| 0 <= i < s.len() && #[trigger] s[i].0 == o
}

pub open spec fn entries_map(s: Seq<(OutputId, MyValueType)>) -> Map<OutputId, ValueView> {
    Map::new(
        |o: OutputId| holds_key(s, o),
        |o: OutputId| s[choose|i: int| 0 <= i < s.len() && #[trigger] s[i].0 == o].1@,
    )
}

impl View for OutputsCache {
    type V = Map<OutputId, ValueView>;

    closed spec fn view(&self) -> Map<OutputId, ValueView> {
        entries_map(self.entries@)
    }
}

/// With unique keys, the value at a key is that of its one entry.
proof fn lemma_entry_value(s: Seq<(OutputId, MyValueType)>, i: int)
    requires
        keys_unique(s),
        0 <= i < s.len(),
    ensures
        entries_map(s).contains_key(s[i].0),
        entries_map(s)[s[i].0] == s[i].1@,
{
    let o = s[i].0;
    assert(holds_key(s, o));
    let j = choose|j: int| 0 <= j < s.len() && #[trigger] s[j].0 == o;
    if j < i {
        assert(s[j].0 != s[i].0);
    }
    if i < j {
        assert(s[i].0 != s[j].0);
    }
}

impl OutputsCache {
    #[verifier::type_invariant]
    spec fn inv(self) -> bool {
        keys_unique(self.entries@)
    }

    /// The empty cache, with which an evaluation starts.
    pub fn new() -> (r: OutputsCache)
        ensures
            r@ == Map::<OutputId, ValueView>::empty(),
    {
        let r = OutputsCache { entries: Vec::new() };
        assert(r@ =~= Map::<OutputId, ValueView>::empty());
        r
    }

    /// The position of the entry for `o`, if any.
    fn find(&self, o: OutputId) -> (r: Option<usize>)
        ensures
            r is None <==> !self@.contains_key(o),
            r matches Some(i) ==> i < self.entries@.len() && self.entries@[i as int].0 == o
                && self@[o] == self.entries@[i as int].1@,
    {
        proof {
            use_type_invariant(self);
        }
        let mut i: usize = 0;
        while i < self.entries.len()
            invariant
                i <= self.entries@.len(),
                keys_unique(self.entries@),
                forall|j: int| 0 <= j < i ==> #[trigger] self.entries@[j].0 != o,
            decreases self.entries@.len() - i,
        {
            if self.entries[i].0 == o {
                proof {
                    lemma_entry_value(self.entries@, i as int);
                }
                return Some(i);
            }
            i += 1;
        }
        None
    }

    pub fn contains(&self, o: OutputId) -> (r: bool)
        ensures
            r == self@.contains_key(o),
    {
        self.find(o).is_some()
    }

    /// The value computed for `o`, if any.
    pub fn get(&self, o: OutputId) -> (r: Option<&MyValueType>)
        ensures
            r is Some <==> self@.contains_key(o),
            r matches Some(v) ==> v@ == self@[o],
    {
        match self.find(o) {
            Some(i) => Some(&self.entries[i].1),
            None => None,
        }
    }

    /// The outputs that have a value, each once.
    pub fn keys(&self) -> (r: Vec<OutputId>)
        ensures
            r@.to_set() == self@.dom(),
            r@.no_duplicates(),
    {
        proof {
            use_type_invariant(self);
        }
        let mut r: Vec<OutputId> = Vec::new();
        let mut i: usize = 0;
        while i < self.entries.len()
            invariant
                i <= self.entries@.len(),
                keys_unique(self.entries@),
                r@.len() == i,
                forall|j: int| 0 <= j < i ==> #[trigger] r@[j] == self.entries@[j].0,
            decreases self.entries@.len() - i,
        {
            r.push(self.entries[i].0);
            i += 1;
        }
        assert(r@.to_set() =~= self@.dom()) by {
            assert forall|o: OutputId| #[trigger] r@.to_set().contains(o) <==> self@.dom().contains(o) by {
                if r@.contains(o) {
                    let j = choose|j: int| 0 <= j < r@.len() && r@[j] == o;
                    assert(self.entries@[j].0 == o);
                }
                if holds_key(self.entries@, o) {
                    let j = choose|j: int| 0 <= j < self.entries@.len() && #[trigger] self.entries@[j].0 == o;
                    assert(r@[j] == o);
                }
            }
        }
        assert(r@.no_duplicates()) by {
            assert forall|a: int, b: int| 0 <= a < r@.len() && 0 <= b < r@.len() && a != b implies r@[a] != r@[b] by {
                if a < b {
                    assert(self.entries@[a].0 != self.entries@[b].0);
                } else {
                    assert(self.entries@[b].0 != self.entries@[a].0);
                }
            }
        }
        r
    }

    /// Records `v` as the value of `o`, in place of any earlier one.
    pub fn insert(&mut self, o: OutputId, v: MyValueType)
        ensures
            final(self)@ == old(self)@.insert(o, v@),
    {
        proof {
            use_type_invariant(&*self);
        }
        let found = self.find(o);
        let mut entries: Vec<(OutputId, MyValueType)> = Vec::new();
        std::mem::swap(&mut self.entries, &mut entries);
        let ghost s0 = entries@;
        match found {
            Some(i) => {
                entries.set(i, (o, v));
            },
            None => {
                entries.push((o, v));
            },
        }
        let ghost s1 = entries@;
        assert(keys_unique(s1)) by {
            assert forall|a: int, b: int| 0 <= a < b < s1.len() implies #[trigger] s1[a].0 != #[trigger] s1[b].0 by {
                if a < s0.len() && b < s0.len() {
                    if found is Some {
                        if a != found->0 && b != found->0 {
                            assert(s0[a].0 != s0[b].0);
                        } else if a == found->0 {
                            assert(s0[a].0 != s0[b].0);
                        } else {
                            assert(s0[a].0 != s0[b].0);
                        }
                    } else {
                        assert(s0[a].0 != s0[b].0);
                    }
                } else {
                    assert(!holds_key(s0, o));
                    assert(s0[a].0 != o);
                }
            }
        }
        assert(entries_map(s1) =~= entries_map(s0).insert(o, v@)) by {
            assert forall|k: OutputId| #[trigger] entries_map(s1).contains_key(k)
                <==> entries_map(s0).insert(o, v@).contains_key(k) by {
                if holds_key(s1, k) && k != o {
                    let j = choose|j: int| 0 <= j < s1.len() && #[trigger] s1[j].0 == k;
                    assert(s0[j].0 == k);
                }
                if holds_key(s0, k) {
                    let j = choose|j: int| 0 <= j < s0.len() && #[trigger] s0[j].0 == k;
                    if k != o {
                        assert(s1[j].0 == k);
                    }
                }
                if k == o {
                    match found {
                        Some(i) => { assert(s1[i as int].0 == o); },
                        None => { assert(s1[s0.len() as int].0 == o); },
                    }
                }
            }
            assert forall|k: OutputId| #[trigger] entries_map(s1).contains_key(k)
                implies entries_map(s1)[k] == entries_map(s0).insert(o, v@)[k] by {
                let j = choose|j: int| 0 <= j < s1.len() && #[trigger] s1[j].0 == k;
                lemma_entry_value(s1, j);
                if k != o {
                    assert(s0[j].0 == k);
                    lemma_entry_value(s0, j);
                }
            }
        }
        std::mem::swap(&mut self.entries, &mut entries);
    }
}

} // verus!
