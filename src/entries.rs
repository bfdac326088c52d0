use vstd::prelude::*;

verus! {

// Keys are held in plain `Vec<String>`s searched linearly: vstd's `HashSet`
// specification applies only to key types that obey its key model, which it
// grants to integers and `bool`, not to `String`.

/// The set of keys (paths) held by a list; order and repetition do not matter.
pub open spec fn entry_set(v: Seq<String>) -> Set<Seq<char>> {
    Set::new(|k: Seq<char>| exists|i: int| 0 <= i < v.len() && v[i]@ == k)
}

/// No key occurs twice in the list.
pub open spec fn distinct_keys(v: Seq<String>) -> bool {
    forall|i: int, j: int| 0 <= i < j < v.len() ==> v[i]@ != v[j]@
}

/// The keys of a list, in order.
pub open spec fn key_seq(v: Seq<String>) -> Seq<Seq<char>> {
    v.map_values(|s: String| s@)
}

pub proof fn lemma_entry_set_push(v: Seq<String>, x: String)
    ensures
        entry_set(v.push(x)) == entry_set(v).insert(x@),
{
    let l = entry_set(v.push(x));
    let r = entry_set(v).insert(x@);
    assert forall|k: Seq<char>| l.contains(k) implies r.contains(k) by {
        let i = choose|i: int| 0 <= i < v.push(x).len() && v.push(x)[i]@ == k;
        if i < v.len() {
            assert(v[i]@ == k);
        }
    }
    assert forall|k: Seq<char>| r.contains(k) implies l.contains(k) by {
        if k == x@ {
            assert(v.push(x)[v.len() as int]@ == k);
        } else {
            let i = choose|i: int| 0 <= i < v.len() && v[i]@ == k;
            assert(v.push(x)[i]@ == k);
        }
    }
    assert(l =~= r);
}

/// Whether `k` is among `keys`.
pub fn contains_key(keys: &Vec<String>, k: &String) -> (r: bool)
    ensures
        r == entry_set(keys@).contains(k@),
{
    let mut i: usize = 0;
    while i < keys.len()
        invariant
            i <= keys.len(),
            forall|j: int| 0 <= j < i ==> keys@[j]@ != k@,
        decreases keys.len() - i,
    {
        if keys[i] == *k {
            assert(keys@[i as int]@ == k@);
            return true;
        }
        i += 1;
    }
    false
}

/// The keys of `new` that `old` does not hold, each once, in their order in `new`.
pub fn added_entries(old: &Vec<String>, new: &Vec<String>) -> (r: Vec<String>)
    ensures
        entry_set(r@) == entry_set(new@).difference(entry_set(old@)),
        distinct_keys(r@),
{
    let mut r: Vec<String> = Vec::new();
    let mut i: usize = 0;
    while i < new.len()
        invariant
            i <= new.len(),
            distinct_keys(r@),
            entry_set(r@) == entry_set(new@.subrange(0, i as int)).difference(entry_set(old@)),
        decreases new.len() - i,
    {
        let k = &new[i];
        proof {
            assert(new@.subrange(0, i + 1) =~= new@.subrange(0, i as int).push(new@[i as int]));
            lemma_entry_set_push(new@.subrange(0, i as int), new@[i as int]);
        }
        if !contains_key(old, k) && !contains_key(&r, k) {
            let c = k.clone();
            proof {
                lemma_entry_set_push(r@, c);
                assert forall|a: int, b: int| 0 <= a < b < r@.push(c).len() implies r@.push(c)[a]@ != r@.push(c)[b]@ by {
                    if b == r@.len() {
                        assert(entry_set(r@).contains(r@[a]@));
                    }
                }
            }
            r.push(c);
        }
        assert(entry_set(r@) =~= entry_set(new@.subrange(0, i + 1)).difference(entry_set(old@)));
        i += 1;
    }
    assert(new@.subrange(0, new.len() as int) =~= new@);
    r
}

/// The record of one measurement pass: which keys were taken up, which of
/// those were measured and submitted, and which failed.
pub struct PassLedger {
    seen: Vec<String>,
    measured: Vec<String>,
    failed: Vec<String>,
}

/// A summary of a finished pass.
#[derive(Debug, Clone, PartialEq, Eq)]
pub struct PassReport {
    /// Keys whose record was submitted, in processing order.
    pub measured: Vec<String>,
    /// Keys (or patterns) that could not be measured or submitted.
    pub failed: Vec<String>,
}

impl PassReport {
    /// Whether the pass completed with errors, i.e. some entry failed.
    pub fn has_errors(&self) -> (r: bool)
        ensures
            r == (self.failed@.len() > 0),
    {
        self.failed.len() > 0
    }
}

impl PassLedger {
    pub closed spec fn seen_keys(&self) -> Set<Seq<char>> {
        entry_set(self.seen@)
    }

    pub closed spec fn measured_keys(&self) -> Seq<Seq<char>> {
        key_seq(self.measured@)
    }

    pub closed spec fn failed_keys(&self) -> Seq<Seq<char>> {
        key_seq(self.failed@)
    }

    /// A ledger for a pass that has taken up nothing yet.
    pub fn new() -> (r: PassLedger)
        ensures
            r.seen_keys() == Set::<Seq<char>>::empty(),
            r.measured_keys() == Seq::<Seq<char>>::empty(),
            r.failed_keys() == Seq::<Seq<char>>::empty(),
    {
        let r = PassLedger { seen: Vec::new(), measured: Vec::new(), failed: Vec::new() };
        assert(entry_set(r.seen@) =~= Set::<Seq<char>>::empty());
        assert(key_seq(r.measured@) =~= Seq::<Seq<char>>::empty());
        assert(key_seq(r.failed@) =~= Seq::<Seq<char>>::empty());
        r
    }

    /// Takes up `key` unless this pass already did: returns whether the key is
    /// new, in which case it must be measured now, and otherwise skipped.
    pub fn take_up(&mut self, key: &String) -> (r: bool)
        ensures
            r == !old(self).seen_keys().contains(key@),
            final(self).seen_keys() == old(self).seen_keys().insert(key@),
            final(self).measured_keys() == old(self).measured_keys(),
            final(self).failed_keys() == old(self).failed_keys(),
    {
        if contains_key(&self.seen, key) {
            assert(entry_set(self.seen@).insert(key@) =~= entry_set(self.seen@));
            false
        } else {
            let c = key.clone();
            proof {
                lemma_entry_set_push(self.seen@, c);
            }
            self.seen.push(c);
            true
        }
    }

    /// Notes how the measurement of a taken-up key ended.
    pub fn settle(&mut self, key: &String, ok: bool)
        ensures
            final(self).seen_keys() == old(self).seen_keys(),
            ok ==> final(self).measured_keys() == old(self).measured_keys().push(key@),
            ok ==> final(self).failed_keys() == old(self).failed_keys(),
            !ok ==> final(self).measured_keys() == old(self).measured_keys(),
            !ok ==> final(self).failed_keys() == old(self).failed_keys().push(key@),
    {
        let c = key.clone();
        if ok {
            self.measured.push(c);
            assert(key_seq(self.measured@) =~= key_seq(old(self).measured@).push(key@));
        } else {
            self.failed.push(c);
            assert(key_seq(self.failed@) =~= key_seq(old(self).failed@).push(key@));
        }
    }

    /// Notes a failure that belongs to no single key, such as an invalid pattern.
    pub fn note_failure(&mut self, what: &String)
        ensures
            final(self).seen_keys() == old(self).seen_keys(),
            final(self).measured_keys() == old(self).measured_keys(),
            final(self).failed_keys() == old(self).failed_keys().push(what@),
    {
        self.failed.push(what.clone());
        assert(key_seq(self.failed@) =~= key_seq(old(self).failed@).push(what@));
    }

    /// The summary of the pass so far.
    pub fn report(&self) -> (r: PassReport)
        ensures
            key_seq(r.measured@) == self.measured_keys(),
            key_seq(r.failed@) == self.failed_keys(),
    {
        PassReport { measured: self.measured.clone(), failed: self.failed.clone() }
    }
}

/// The state of a pass as the ledger records it: keys taken up, keys
/// measured in order, keys failed in order.
pub type PassState = (Set<Seq<char>>, Seq<Seq<char>>, Seq<Seq<char>>);

impl PassLedger {
    pub open spec fn state(&self) -> PassState {
        (self.seen_keys(), self.measured_keys(), self.failed_keys())
    }
}

/// One entry of a pass: a key already taken up is skipped; a new one is
/// taken up and ends measured (`ok`) or failed.
pub open spec fn pass_step(s: PassState, key: Seq<char>, ok: bool) -> PassState {
    if s.0.contains(key) {
        s
    } else if ok {
        (s.0.insert(key), s.1.push(key), s.2)
    } else {
        (s.0.insert(key), s.1, s.2.push(key))
    }
}

/// A pass over entries in order, each a key and whether its measurement succeeds.
pub open spec fn pass_run(s: PassState, entries: Seq<(Seq<char>, bool)>) -> PassState
    decreases entries.len(),
{
    if entries.len() == 0 {
        s
    } else {
        pass_run(pass_step(s, entries[0].0, entries[0].1), entries.drop_first())
    }
}

/// A pass that has taken up nothing.
pub open spec fn pass_start() -> PassState {
    (Set::empty(), Seq::empty(), Seq::empty())
}

/// One round of the ledger is one `pass_step`: `take_up` of a key, then, if
/// it was new, `settle` with the outcome of its measurement.
pub proof fn lemma_round_is_step(l0: PassLedger, l1: PassLedger, l2: PassLedger, key: String, fresh: bool, ok: bool)
    requires
        fresh == !l0.seen_keys().contains(key@),
        l1.seen_keys() == l0.seen_keys().insert(key@),
        l1.measured_keys() == l0.measured_keys(),
        l1.failed_keys() == l0.failed_keys(),
        !fresh ==> l2 == l1,
        fresh ==> l2.seen_keys() == l1.seen_keys(),
        fresh && ok ==> l2.measured_keys() == l1.measured_keys().push(key@) && l2.failed_keys() == l1.failed_keys(),
        fresh && !ok ==> l2.measured_keys() == l1.measured_keys() && l2.failed_keys() == l1.failed_keys().push(key@),
    ensures
        l2.state() == pass_step(l0.state(), key@, ok),
{
    if !fresh {
        assert(l0.seen_keys().insert(key@) =~= l0.seen_keys());
    }
}

/// Keys measured, failed and taken up stay apart and unrepeated along a pass.
pub open spec fn pass_state_ok(s: PassState) -> bool {
    &&& s.1.no_duplicates()
    &&& s.2.no_duplicates()
    &&& forall|i: int| 0 <= i < s.1.len() ==> s.0.contains(#[trigger] s.1[i])
    &&& forall|i: int| 0 <= i < s.2.len() ==> s.0.contains(#[trigger] s.2[i])
    &&& forall|i: int, j: int| 0 <= i < s.1.len() && 0 <= j < s.2.len() ==> s.1[i] != s.2[j]
}

proof fn lemma_step_keeps_ok(s: PassState, key: Seq<char>, ok: bool)
    requires
        pass_state_ok(s),
    ensures
        pass_state_ok(pass_step(s, key, ok)),
{
    let t = pass_step(s, key, ok);
    if !s.0.contains(key) {
        if ok {
            assert forall|i: int| 0 <= i < t.1.len() implies t.0.contains(#[trigger] t.1[i]) by {
                if i < s.1.len() {
                    assert(t.1[i] == s.1[i]);
                }
            }
            assert forall|i: int, j: int| 0 <= i < t.1.len() && 0 <= j < t.2.len() implies t.1[i] != t.2[j] by {
                if i < s.1.len() {
                    assert(t.1[i] == s.1[i]);
                } else {
                    assert(s.0.contains(s.2[j]));
                }
            }
            assert forall|i: int, j: int| 0 <= i < j < t.1.len() implies t.1[i] != t.1[j] by {
                if j == s.1.len() {
                    assert(s.0.contains(s.1[i]));
                } else {
                    assert(t.1[i] == s.1[i] && t.1[j] == s.1[j]);
                }
            }
        } else {
            assert forall|i: int| 0 <= i < t.2.len() implies t.0.contains(#[trigger] t.2[i]) by {
                if i < s.2.len() {
                    assert(t.2[i] == s.2[i]);
                }
            }
            assert forall|i: int, j: int| 0 <= i < t.1.len() && 0 <= j < t.2.len() implies t.1[i] != t.2[j] by {
                if j < s.2.len() {
                    assert(t.2[j] == s.2[j]);
                } else {
                    assert(s.0.contains(s.1[i]));
                }
            }
            assert forall|i: int, j: int| 0 <= i < j < t.2.len() implies t.2[i] != t.2[j] by {
                if j == s.2.len() {
                    assert(s.0.contains(s.2[i]));
                } else {
                    assert(t.2[i] == s.2[i] && t.2[j] == s.2[j]);
                }
            }
        }
    }
}

proof fn lemma_run_keeps_ok(s: PassState, entries: Seq<(Seq<char>, bool)>)
    requires
        pass_state_ok(s),
    ensures
        pass_state_ok(pass_run(s, entries)),
    decreases entries.len(),
{
    if entries.len() > 0 {
        lemma_step_keeps_ok(s, entries[0].0, entries[0].1);
        lemma_run_keeps_ok(pass_step(s, entries[0].0, entries[0].1), entries.drop_first());
    }
}

/// Deduplication: whatever entries a pass meets, repeated ones included, no
/// key is measured twice, and no key is both measured and failed.
pub proof fn lemma_pass_measures_each_key_once(entries: Seq<(Seq<char>, bool)>)
    ensures
        pass_run(pass_start(), entries).1.no_duplicates(),
        pass_run(pass_start(), entries).2.no_duplicates(),
        forall|i: int, j: int| 0 <= i < pass_run(pass_start(), entries).1.len() && 0 <= j < pass_run(pass_start(), entries).2.len()
            ==> pass_run(pass_start(), entries).1[i] != pass_run(pass_start(), entries).2[j],
{
    lemma_run_keeps_ok(pass_start(), entries);
}

/// The same unchanged artifact met twice in one pass is measured once.
pub proof fn lemma_same_key_twice_measured_once(key: Seq<char>)
    ensures
        pass_run(pass_start(), seq![(key, true), (key, true)]).1 == seq![key],
        pass_run(pass_start(), seq![(key, true), (key, true)]).2 == Seq::<Seq<char>>::empty(),
{
    let e = seq![(key, true), (key, true)];
    let s1 = pass_step(pass_start(), key, true);
    assert(e.drop_first().drop_first() =~= Seq::<(Seq<char>, bool)>::empty());
    assert(s1.0.contains(key));
    assert(pass_run(pass_start(), e) == pass_run(s1, e.drop_first()));
    assert(pass_run(s1, e.drop_first()) == pass_run(pass_step(s1, key, true), e.drop_first().drop_first()));
    assert(s1.1 =~= seq![key]);
}

proof fn lemma_run_keeps_key_measured(s: PassState, entries: Seq<(Seq<char>, bool)>, key: Seq<char>)
    requires
        s.0.contains(key) ==> s.1.contains(key),
        !s.2.contains(key),
        forall|i: int| 0 <= i < entries.len() && (#[trigger] entries[i]).0 == key ==> entries[i].1,
    ensures
        pass_run(s, entries).0.contains(key) ==> pass_run(s, entries).1.contains(key),
        !pass_run(s, entries).2.contains(key),
        s.1.contains(key) || (exists|i: int| 0 <= i < entries.len() && (#[trigger] entries[i]).0 == key)
            ==> pass_run(s, entries).1.contains(key),
    decreases entries.len(),
{
    if entries.len() > 0 {
        let (k0, ok0) = entries[0];
        let t = pass_step(s, k0, ok0);
        if k0 == key {
            assert(ok0);
        }
        assert(t.1.contains(key) <== s.1.contains(key)) by {
            if s.1.contains(key) && !s.0.contains(k0) && ok0 {
                let j = choose|j: int| 0 <= j < s.1.len() && s.1[j] == key;
                assert(s.1.push(k0)[j] == key);
            }
        }
        assert(t.0.contains(key) ==> t.1.contains(key)) by {
            if t.0.contains(key) && k0 == key && !s.0.contains(k0) {
                assert(s.1.push(k0)[s.1.len() as int] == key);
            }
        }
        assert(!t.2.contains(key)) by {
            if !s.0.contains(k0) && !ok0 && t.2.contains(key) {
                let j = choose|j: int| 0 <= j < t.2.len() && t.2[j] == key;
                if j < s.2.len() {
                    assert(s.2[j] == key);
                }
            }
        }
        let rest = entries.drop_first();
        assert forall|i: int| 0 <= i < rest.len() && (#[trigger] rest[i]).0 == key implies rest[i].1 by {
            assert(rest[i] == entries[i + 1]);
        }
        lemma_run_keeps_key_measured(t, rest, key);
        if exists|i: int| 0 <= i < entries.len() && (#[trigger] entries[i]).0 == key {
            let i = choose|i: int| 0 <= i < entries.len() && (#[trigger] entries[i]).0 == key;
            if i == 0 {
                assert(t.0.contains(key));
            } else {
                assert(rest[i - 1].0 == key);
            }
        }
    }
}

/// A key met any number of times in one pass, measurable each time, is
/// measured exactly once and never counted as failed.
pub proof fn lemma_repeated_key_measured_once(entries: Seq<(Seq<char>, bool)>, key: Seq<char>)
    requires
        exists|i: int| 0 <= i < entries.len() && (#[trigger] entries[i]).0 == key,
        forall|i: int| 0 <= i < entries.len() && (#[trigger] entries[i]).0 == key ==> entries[i].1,
    ensures
        pass_run(pass_start(), entries).1.contains(key),
        pass_run(pass_start(), entries).1.no_duplicates(),
        !pass_run(pass_start(), entries).2.contains(key),
{
    lemma_run_keeps_key_measured(pass_start(), entries, key);
    lemma_run_keeps_ok(pass_start(), entries);
}

/// The keys of entries, in order, restricted to those with the given outcome.
pub open spec fn keys_with(entries: Seq<(Seq<char>, bool)>, ok: bool) -> Seq<Seq<char>>
    decreases entries.len(),
{
    if entries.len() == 0 {
        Seq::empty()
    } else if entries.last().1 == ok {
        keys_with(entries.drop_last(), ok).push(entries.last().0)
    } else {
        keys_with(entries.drop_last(), ok)
    }
}

/// Distinct keys only.
pub open spec fn distinct_entry_keys(entries: Seq<(Seq<char>, bool)>) -> bool {
    forall|i: int, j: int| 0 <= i < j < entries.len() ==> entries[i].0 != entries[j].0
}

proof fn lemma_run_distinct(entries: Seq<(Seq<char>, bool)>)
    requires
        distinct_entry_keys(entries),
    ensures
        pass_run(pass_start(), entries).1 == keys_with(entries, true),
        pass_run(pass_start(), entries).2 == keys_with(entries, false),
        pass_run(pass_start(), entries).0 == Set::new(|k: Seq<char>| exists|i: int| 0 <= i < entries.len() && entries[i].0 == k),
    decreases entries.len(),
{
    // Peel the last entry: a run over a prefix, then one step.
    if entries.len() > 0 {
        let p = entries.drop_last();
        assert(distinct_entry_keys(p)) by {
            assert forall|i: int, j: int| 0 <= i < j < p.len() implies p[i].0 != p[j].0 by {
                assert(p[i] == entries[i] && p[j] == entries[j]);
            }
        }
        lemma_run_distinct(p);
        lemma_run_snoc(pass_start(), p, entries.last());
        assert(p.push(entries.last()) =~= entries);
        let s = pass_run(pass_start(), p);
        let key = entries.last().0;
        assert(!s.0.contains(key)) by {
            if s.0.contains(key) {
                let i = choose|i: int| 0 <= i < p.len() && p[i].0 == key;
                assert(entries[i].0 == entries[entries.len() - 1].0);
            }
        }
        assert(pass_run(pass_start(), entries).0 =~= Set::new(|k: Seq<char>| exists|i: int| 0 <= i < entries.len() && entries[i].0 == k)) by {
            let l = pass_run(pass_start(), entries).0;
            assert forall|k: Seq<char>| (exists|i: int| 0 <= i < entries.len() && entries[i].0 == k) implies l.contains(k) by {
                let i = choose|i: int| 0 <= i < entries.len() && entries[i].0 == k;
                if i < p.len() {
                    assert(p[i].0 == k);
                }
            }
            assert forall|k: Seq<char>| l.contains(k) implies (exists|i: int| 0 <= i < entries.len() && entries[i].0 == k) by {
                if k != key {
                    let i = choose|i: int| 0 <= i < p.len() && p[i].0 == k;
                    assert(entries[i].0 == k);
                } else {
                    assert(entries[entries.len() - 1].0 == k);
                }
            }
        }
    } else {
        assert(Set::new(|k: Seq<char>| exists|i: int| 0 <= i < entries.len() && entries[i].0 == k) =~= Set::<Seq<char>>::empty());
    }
}

proof fn lemma_run_snoc(s: PassState, entries: Seq<(Seq<char>, bool)>, e: (Seq<char>, bool))
    ensures
        pass_run(s, entries.push(e)) == pass_step(pass_run(s, entries), e.0, e.1),
    decreases entries.len(),
{
    if entries.len() == 0 {
        assert(entries.push(e).drop_first() =~= Seq::<(Seq<char>, bool)>::empty());
        assert(entries.push(e)[0] == e);
        assert(pass_run(pass_step(s, e.0, e.1), Seq::<(Seq<char>, bool)>::empty()) == pass_step(s, e.0, e.1));
    } else {
        assert(entries.push(e).drop_first() =~= entries.drop_first().push(e));
        assert(entries.push(e)[0] == entries[0]);
        lemma_run_snoc(pass_step(s, entries[0].0, entries[0].1), entries.drop_first(), e);
    }
}

/// Partial failure tolerance: over distinct keys, a pass measures every
/// entry that succeeds, in order, and lists every one that fails; the
/// failures make it "completed with errors", never cut it short.
pub proof fn lemma_pass_tolerates_failures(entries: Seq<(Seq<char>, bool)>, k: int)
    requires
        distinct_entry_keys(entries),
        0 <= k < entries.len(),
        !entries[k].1,
    ensures
        pass_run(pass_start(), entries).1 == keys_with(entries, true),
        pass_run(pass_start(), entries).2 == keys_with(entries, false),
        pass_run(pass_start(), entries).2.contains(entries[k].0),
        pass_run(pass_start(), entries).2.len() > 0,
{
    lemma_run_distinct(entries);
    lemma_keys_with_contains(entries, false, k);
}

proof fn lemma_keys_with_contains(entries: Seq<(Seq<char>, bool)>, ok: bool, k: int)
    requires
        0 <= k < entries.len(),
        entries[k].1 == ok,
    ensures
        keys_with(entries, ok).contains(entries[k].0),
    decreases entries.len(),
{
    if k == entries.len() - 1 {
        let p = keys_with(entries.drop_last(), ok);
        assert(p.push(entries.last().0)[p.len() as int] == entries[k].0);
    } else {
        lemma_keys_with_contains(entries.drop_last(), ok, k);
        assert(entries.drop_last()[k] == entries[k]);
        if entries.last().1 == ok {
            let p = keys_with(entries.drop_last(), ok);
            let j = choose|j: int| 0 <= j < p.len() && p[j] == entries[k].0;
            assert(p.push(entries.last().0)[j] == entries[k].0);
        }
    }
}

} // verus!
