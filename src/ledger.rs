use vstd::prelude::*;

verus! {

/// A learned value as the ledger sees it: the round and the value's characters.
pub type EntryView = (u64, Seq<char>);

/// The ledger after an attempt to record `e`: unchanged when the exact pair is
/// already there, else with `e` at the end.
pub open spec fn appended(l: Seq<EntryView>, e: EntryView) -> Seq<EntryView> {
    if l.contains(e) {
        l
    } else {
        l.push(e)
    }
}

/// No round holds two different values.
pub open spec fn one_value_per_round(l: Seq<EntryView>) -> bool {
    forall|i: int, j: int|
        0 <= i < l.len() && 0 <= j < l.len() && (#[trigger] l[i]).0 == (#[trigger] l[j]).0
            ==> l[i].1 == l[j].1
}

/// `l` already holds a different value for the round of `e`.
pub open spec fn conflicts(l: Seq<EntryView>, e: EntryView) -> bool {
    exists|i: int| 0 <= i < l.len() && (#[trigger] l[i]).0 == e.0 && l[i].1 != e.1
}

/// The shared, append-only record of learned `(round, value)` pairs, each
/// pair at most once, in the order they were learned.
#[derive(Debug)]
pub struct Ledger {
    entries: Vec<(u64, String)>,
}

impl View for Ledger {
    type V = Seq<EntryView>;

    closed spec fn view(&self) -> Seq<EntryView> {
        self.entries@.map_values(|e: (u64, String)| (e.0, e.1@))
    }
}

impl Ledger {
    /// An empty ledger.
    pub fn new() -> (l: Ledger)
        ensures
            l@ == Seq::<EntryView>::empty(),
    {
        let l = Ledger { entries: Vec::new() };
        assert(l@ =~= Seq::<EntryView>::empty());
        l
    }

    /// Whether the exact pair `(round, value)` has been learned.
    pub fn contains(&self, round: u64, value: &String) -> (r: bool)
        ensures
            r == self@.contains((round, value@)),
    {
        let mut i: usize = 0;
        while i < self.entries.len()
            invariant
                0 <= i <= self.entries@.len(),
                self@.len() == self.entries@.len(),
                forall|j: int| 0 <= j < self@.len() ==> #[trigger] self@[j] == (self.entries@[j].0, self.entries@[j].1@),
                forall|j: int| 0 <= j < i ==> self@[j] != (round, value@),
            decreases self.entries@.len() - i,
        {
            let e = &self.entries[i];
            if e.0 == round && e.1 == *value {
                assert(self@[i as int] == (round, value@));
                return true;
            }
            i = i + 1;
        }
        false
    }

    /// Records `(round, value)` unless that exact pair is already present.
    /// Returns whether it was inserted.
    pub fn try_append(&mut self, round: u64, value: String) -> (inserted: bool)
        ensures
            inserted == !old(self)@.contains((round, value@)),
            final(self)@ == appended(old(self)@, (round, value@)),
    {
        if self.contains(round, &value) {
            false
        } else {
            let ghost before = self@;
            let ghost e = (round, value@);
            self.entries.push((round, value));
            assert(self@ =~= before.push(e));
            true
        }
    }

    /// The number of learned pairs.
    pub fn len(&self) -> (n: usize)
        ensures
            n == self@.len(),
    {
        self.entries.len()
    }

    /// The learned pairs, in the order they were recorded.
    pub fn entries(&self) -> (r: &Vec<(u64, String)>)
        ensures
            r@.map_values(|e: (u64, String)| (e.0, e.1@)) == self@,
    {
        &self.entries
    }
}

/// Recording keeps every pair in the ledger at most once.
pub proof fn lemma_record_keeps_pairs_unique(l: Seq<EntryView>, e: EntryView)
    requires
        l.no_duplicates(),
    ensures
        appended(l, e).no_duplicates(),
{
    let n = appended(l, e);
    if !l.contains(e) {
        assert forall|i: int, j: int| 0 <= i < n.len() && 0 <= j < n.len() && i != j
            implies n[i] != n[j] by {
            if j == l.len() as int {
                assert(l[i] == n[i]);
            } else if i == l.len() as int {
                assert(l[j] == n[j]);
            } else {
                assert(l[i] == n[i] && l[j] == n[j]);
            }
        }
    }
}

/// The empty ledger holds one value per round, and recording a pair keeps it
/// so whenever the ledger holds no other value for that pair's round.
pub proof fn lemma_one_value_per_round(l: Seq<EntryView>, e: EntryView)
    requires
        one_value_per_round(l),
        !conflicts(l, e),
    ensures
        one_value_per_round(Seq::<EntryView>::empty()),
        one_value_per_round(appended(l, e)),
{
    let n = appended(l, e);
    if !l.contains(e) {
        assert forall|i: int, j: int|
            0 <= i < n.len() && 0 <= j < n.len() && (#[trigger] n[i]).0 == (#[trigger] n[j]).0
            implies n[i].1 == n[j].1 by {
            if i == l.len() && j < l.len() {
                assert(n[j] == l[j]);
            } else if j == l.len() && i < l.len() {
                assert(n[i] == l[i]);
            } else if i < l.len() && j < l.len() {
                assert(n[i] == l[i] && n[j] == l[j]);
            }
        }
    }
}

} // verus!
