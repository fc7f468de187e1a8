use vstd::prelude::*;

verus! {

/// The least number of responses that any two quorums of an `n`-node
/// cluster share a member with: a strict majority.
pub open spec fn majority(n: u64) -> int {
    n / 2 + 1
}

/// The majority threshold of an `n`-node cluster.
pub fn quorum(n: u64) -> (q: u64)
    ensures
        q == majority(n),
{
    n / 2 + 1
}

/// A collected promise: the ballot promised, the ballot under which the
/// acceptor had accepted a value (if any), and the value it reported.
pub type Promised = (u64, Option<u64>, String);

/// A collected promise with its value seen as characters.
pub type PromisedView = (u64, Option<u64>, Seq<char>);

pub open spec fn promised_view(ps: Seq<Promised>) -> Seq<PromisedView> {
    ps.map_values(|e: Promised| (e.0, e.1, e.2@))
}

/// Some promise in `ps` reports a previously accepted value.
pub open spec fn carries_accepted(ps: Seq<PromisedView>) -> bool {
    exists|j: int| 0 <= j < ps.len() && (#[trigger] ps[j]).1 is Some
}

/// Promise `i` reports the highest accepted ballot in `ps`, and is the last
/// one to report it.
pub open spec fn is_highest_carried(ps: Seq<PromisedView>, i: int) -> bool {
    &&& 0 <= i < ps.len()
    &&& ps[i].1 is Some
    &&& forall|j: int| 0 <= j < ps.len() && (#[trigger] ps[j]).1 is Some ==> ps[j].1->0 <= ps[i].1->0
    &&& forall|j: int| i < j < ps.len() && (#[trigger] ps[j]).1 is Some ==> ps[j].1->0 < ps[i].1->0
}

/// The value a proposer may carry into phase two: the value reported with
/// the highest accepted ballot when any promise reports one, else the value
/// of the first promise.
pub open spec fn safe_value(ps: Seq<PromisedView>) -> Seq<char> {
    if carries_accepted(ps) {
        ps[choose|i: int| is_highest_carried(ps, i)].2
    } else {
        ps[0].2
    }
}

/// At most one promise is the last to report the highest accepted ballot.
pub proof fn lemma_highest_carried_unique(ps: Seq<PromisedView>, i: int, k: int)
    requires
        is_highest_carried(ps, i),
        is_highest_carried(ps, k),
    ensures
        i == k,
{
    if i < k {
        assert(ps[k].1->0 < ps[i].1->0);
        assert(ps[i].1->0 <= ps[k].1->0);
    } else if k < i {
        assert(ps[i].1->0 < ps[k].1->0);
        assert(ps[k].1->0 <= ps[i].1->0);
    }
}

/// Picks the value to propose once a quorum of promises is in.
pub fn choose_value(promises: &Vec<Promised>) -> (v: String)
    requires
        promises@.len() > 0,
    ensures
        v@ == safe_value(promised_view(promises@)),
{
    let ghost ps = promised_view(promises@);
    let mut best: Option<usize> = None;
    let mut i: usize = 0;
    while i < promises.len()
        invariant
            0 <= i <= promises@.len(),
            ps == promised_view(promises@),
            ps.len() == promises@.len(),
            match best {
                None => forall|j: int| 0 <= j < i ==> (#[trigger] ps[j]).1 is None,
                Some(b) => {
                    &&& b < i
                    &&& ps[b as int].1 is Some
                    &&& forall|j: int| 0 <= j < i && (#[trigger] ps[j]).1 is Some ==> ps[j].1->0 <= ps[b as int].1->0
                    &&& forall|j: int| b < j < i && (#[trigger] ps[j]).1 is Some ==> ps[j].1->0 < ps[b as int].1->0
                },
            },
        decreases promises@.len() - i,
    {
        assert(ps[i as int] == (promises@[i as int].0, promises@[i as int].1, promises@[i as int].2@));
        if let Some(a) = promises[i].1 {
            let take = match best {
                None => true,
                Some(b) => {
                    assert(ps[b as int] == (promises@[b as int].0, promises@[b as int].1, promises@[b as int].2@));
                    match promises[b].1 {
                        Some(c) => a >= c,
                        None => true,
                    }
                },
            };
            if take {
                best = Some(i);
            }
        }
        i = i + 1;
    }
    match best {
        None => {
            assert(!carries_accepted(ps));
            assert(ps[0] == (promises@[0].0, promises@[0].1, promises@[0].2@));
            promises[0].2.clone()
        },
        Some(b) => {
            assert(is_highest_carried(ps, b as int));
            assert(carries_accepted(ps));
            proof {
                let k = choose|k: int| is_highest_carried(ps, k);
                lemma_highest_carried_unique(ps, b as int, k);
            }
            assert(ps[b as int] == (promises@[b as int].0, promises@[b as int].1, promises@[b as int].2@));
            promises[b].2.clone()
        },
    }
}

/// The characters of each value in `vs`.
pub open spec fn values_view(vs: Seq<String>) -> Seq<Seq<char>> {
    vs.map_values(|s: String| s@)
}

/// How many times `v` occurs in `vs`.
pub open spec fn tally(vs: Seq<Seq<char>>, v: Seq<char>) -> nat {
    vs.to_multiset().count(v)
}

/// Counts the responses in `values` that carry `v`.
pub fn count_value(values: &Vec<String>, v: &String) -> (c: usize)
    ensures
        c == tally(values_view(values@), v@),
{
    broadcast use vstd::seq_lib::group_to_multiset_ensures, vstd::multiset::group_multiset_axioms;
    let ghost vs = values_view(values@);
    let mut c: usize = 0;
    let mut i: usize = 0;
    assert(vs.take(0) =~= Seq::<Seq<char>>::empty());
    while i < values.len()
        invariant
            0 <= i <= values@.len(),
            vs == values_view(values@),
            c <= i,
            c == tally(vs.take(i as int), v@),
        decreases values@.len() - i,
    {
        let ghost before = vs.take(i as int);
        let ghost x = vs[i as int];
        assert(vs.take(i + 1) =~= before.push(x));
        assert(x == values@[i as int]@);
        proof { vstd::seq_lib::to_multiset_build(before, x); }
        assert(before.to_multiset().insert(x).count(v@) == before.to_multiset().count(v@) + if x == v@ { 1int } else { 0int });
        if values[i] == *v {
            c = c + 1;
        }
        i = i + 1;
    }
    assert(vs.take(i as int) =~= vs);
    c
}

} // verus!
