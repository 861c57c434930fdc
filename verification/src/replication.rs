//! The replication pipeline's configuration: a list of
//! (source-topic, destination-topic) pairs, parsed from the operator's
//! "source=destination;..." string. A source names at most one
//! destination; naming it again replaces the earlier destination.

use vstd::prelude::*;
use crate::split::{split_on, split_str, views_of};

verus! {

/// The pairs a plan holds, as character sequences.
pub type PlanPairs = Seq<(Seq<char>, Seq<char>)>;

/// Whether no source topic occurs twice.
pub open spec fn keys_unique(ps: PlanPairs) -> bool {
    forall|i: int, j: int| 0 <= i < j < ps.len() ==> (#[trigger] ps[i]).0 != (#[trigger] ps[j]).0
}

/// A pair entering a plan: a new source is appended, a known source has
/// its destination replaced in place.
pub open spec fn upsert(ps: PlanPairs, source: Seq<char>, target: Seq<char>) -> PlanPairs
    decreases ps.len(),
{
    if ps.len() == 0 {
        seq![(source, target)]
    } else if ps[0].0 == source {
        seq![(source, target)] + ps.skip(1)
    } else {
        seq![ps[0]] + upsert(ps.skip(1), source, target)
    }
}

/// A set of replication pairs: each source topic maps to one destination
/// topic.
#[derive(Debug)]
pub struct ReplicationPlan {
    pairs: Vec<(String, String)>,
}

impl PartialEq for ReplicationPlan {
    /// Two plans are equal when they hold the same pairs in the same
    /// order.
    fn eq(&self, other: &ReplicationPlan) -> (r: bool) {
        if self.pairs.len() != other.pairs.len() {
            proof {
                assert(self@.len() == self.pairs@.len());
                assert(other@.len() == other.pairs@.len());
            }
            return false;
        }
        let mut i: usize = 0;
        while i < self.pairs.len()
            invariant
                self.pairs@.len() == other.pairs@.len(),
                i <= self.pairs@.len(),
                forall|j: int| 0 <= j < i ==> self@[j] == other@[j],
        decreases self.pairs@.len() - i,
        {
            proof {
                assert(self@[i as int] == (self.pairs@[i as int].0@, self.pairs@[i as int].1@));
                assert(other@[i as int] == (other.pairs@[i as int].0@, other.pairs@[i as int].1@));
            }
            let p = &self.pairs[i];
            let q = &other.pairs[i];
            if !(p.0 == q.0 && p.1 == q.1) {
                proof {
                    assert(self@[i as int] != other@[i as int]);
                }
                return false;
            }
            i = i + 1;
        }
        proof {
            assert(self@ =~= other@);
        }
        true
    }
}

impl vstd::std_specs::cmp::PartialEqSpecImpl for ReplicationPlan {
    open spec fn obeys_eq_spec() -> bool {
        true
    }

    open spec fn eq_spec(&self, other: &ReplicationPlan) -> bool {
        self@ == other@
    }
}

impl View for ReplicationPlan {
    type V = PlanPairs;

    closed spec fn view(&self) -> PlanPairs {
        self.pairs@.map_values(|p: (String, String)| (p.0@, p.1@))
    }
}

proof fn lemma_upsert_replaces(ps: PlanPairs, source: Seq<char>, target: Seq<char>, i: int)
    requires
        0 <= i < ps.len(),
        ps[i].0 == source,
        forall|j: int| 0 <= j < i ==> (#[trigger] ps[j]).0 != source,
    ensures
        upsert(ps, source, target) =~= ps.update(i, (source, target)),
    decreases i,
{
    if i == 0 {
        assert(seq![(source, target)] + ps.skip(1) =~= ps.update(0, (source, target)));
    } else {
        assert(ps[0].0 != source);
        lemma_upsert_replaces(ps.skip(1), source, target, i - 1);
        assert(seq![ps[0]] + ps.skip(1).update(i - 1, (source, target)) =~= ps.update(
            i,
            (source, target),
        ));
    }
}

proof fn lemma_upsert_appends(ps: PlanPairs, source: Seq<char>, target: Seq<char>)
    requires
        forall|j: int| 0 <= j < ps.len() ==> (#[trigger] ps[j]).0 != source,
    ensures
        upsert(ps, source, target) =~= ps.push((source, target)),
    decreases ps.len(),
{
    if ps.len() > 0 {
        lemma_upsert_appends(ps.skip(1), source, target);
        assert(seq![ps[0]] + ps.skip(1).push((source, target)) =~= ps.push((source, target)));
    }
}

impl ReplicationPlan {
    /// One source maps to one destination: no source occurs twice.
    pub open spec fn wf(self) -> bool {
        keys_unique(self@)
    }

    /// A plan with no pairs yet.
    pub fn new() -> (plan: ReplicationPlan)
        ensures
            plan.wf(),
            plan@.len() == 0,
    {
        let plan = ReplicationPlan { pairs: Vec::new() };
        proof {
            assert(plan@ =~= Seq::<(Seq<char>, Seq<char>)>::empty());
        }
        plan
    }

    /// How many pairs the plan holds.
    pub fn len(&self) -> (n: usize)
        ensures
            n == self@.len(),
    {
        self.pairs.len()
    }

    /// The pair at a position, in insertion order.
    pub fn pair(&self, i: usize) -> (p: &(String, String))
        requires
            i < self@.len(),
        ensures
            (p.0@, p.1@) == self@[i as int],
    {
        &self.pairs[i]
    }

    /// Maps a source topic to a destination topic: a new source is
    /// appended, a known source keeps its place and gets the new
    /// destination.
    pub fn insert(&mut self, source: String, target: String)
        requires
            old(self).wf(),
        ensures
            final(self).wf(),
            final(self)@ == upsert(old(self)@, source@, target@),
    {
        let ghost orig = self@;
        let mut i: usize = 0;
        while i < self.pairs.len()
            invariant
                orig == old(self)@,
                self@ == orig,
                keys_unique(orig),
                i <= orig.len(),
                self.pairs@.len() == orig.len(),
                forall|j: int| 0 <= j < i ==> (#[trigger] orig[j]).0 != source@,
            decreases self.pairs@.len() - i,
        {
            proof {
                assert(orig[i as int] == (self.pairs@[i as int].0@, self.pairs@[i as int].1@));
            }
            if self.pairs[i].0 == source {
                proof {
                    lemma_upsert_replaces(orig, source@, target@, i as int);
                }
                let ghost at = i as int;
                self.pairs.set(i, (source, target));
                proof {
                    assert(self@ =~= orig.update(at, (source@, target@)));
                    let updated = orig.update(at, (source@, target@));
                    assert forall|a: int, b: int|
                        0 <= a < b < updated.len() implies (#[trigger] updated[a]).0 != (
                    #[trigger] updated[b]).0 by {
                        assert(orig[a].0 != orig[b].0);
                        if a == at {
                            assert(updated[a].0 == orig[at].0);
                        }
                        if b == at {
                            assert(updated[b].0 == orig[at].0);
                        }
                    }
                }
                return;
            }
            i = i + 1;
        }
        proof {
            lemma_upsert_appends(orig, source@, target@);
        }
        self.pairs.push((source, target));
        proof {
            assert(self@ =~= orig.push((source@, target@)));
            let grown = orig.push((source@, target@));
            assert forall|a: int, b: int|
                0 <= a < b < grown.len() implies (#[trigger] grown[a]).0 != (
            #[trigger] grown[b]).0 by {
                if b < orig.len() {
                    assert(orig[a].0 != orig[b].0);
                } else {
                    assert(grown[b].0 == source@);
                    assert(orig[a].0 != source@);
                }
            }
        }
    }
}

/// The plan a list of well-formed "source=destination" groups builds, in
/// order, later groups replacing earlier ones with the same source.
pub open spec fn plan_pairs(groups: Seq<Seq<char>>) -> PlanPairs
    decreases groups.len(),
{
    if groups.len() == 0 {
        Seq::empty()
    } else {
        upsert(
            plan_pairs(groups.drop_last()),
            split_on(groups.last(), '=')[0],
            split_on(groups.last(), '=')[1],
        )
    }
}

/// Whether every group splits into exactly a source and a destination.
pub open spec fn groups_well_formed(groups: Seq<Seq<char>>) -> bool {
    forall|i: int| 0 <= i < groups.len() ==> split_on(#[trigger] groups[i], '=').len() == 2
}

/// Parses the "source=destination;..." replication configuration: the
/// empty string is rejected outright, a group that is not exactly one
/// source and one destination is a syntax error, and otherwise every
/// group enters the plan in order.
pub fn parse_replication(s: &str) -> (r: Result<ReplicationPlan, &'static str>)
    ensures
        s@.len() == 0 ==> (match r {
            Ok(_) => false,
            Err(e) => e@ == "no elements"@,
        }),
        s@.len() > 0 && !groups_well_formed(split_on(s@, ';')) ==> (match r {
            Ok(_) => false,
            Err(e) => e@ == "syntax error"@,
        }),
        s@.len() > 0 && groups_well_formed(split_on(s@, ';')) ==> (match r {
            Ok(plan) => plan.wf() && plan@ == plan_pairs(split_on(s@, ';')),
            Err(_) => false,
        }),
{
    if s.unicode_len() == 0 {
        return Err("no elements");
    }
    let ghost all_groups = split_on(s@, ';');
    let groups: Vec<String> = split_str(s, ';');
    let mut plan = ReplicationPlan::new();
    let mut i: usize = 0;
    proof {
        assert(all_groups.take(0) =~= Seq::<Seq<char>>::empty());
        assert(plan@ =~= plan_pairs(all_groups.take(0)));
    }
    while i < groups.len()
        invariant
            s@.len() > 0,
            all_groups == split_on(s@, ';'),
            views_of(groups@) == all_groups,
            i <= groups@.len() == all_groups.len(),
            forall|j: int| 0 <= j < i ==> split_on(#[trigger] all_groups[j], '=').len() == 2,
            plan.wf(),
            plan@ == plan_pairs(all_groups.take(i as int)),
        decreases groups@.len() - i,
    {
        proof {
            assert(all_groups[i as int] == groups@[i as int]@);
        }
        let topics: Vec<String> = split_str(groups[i].as_str(), '=');
        if topics.len() != 2 {
            proof {
                assert(split_on(all_groups[i as int], '=').len() != 2);
            }
            return Err("syntax error");
        }
        let source = topics[0].clone();
        let target = topics[1].clone();
        proof {
            assert(source@ == views_of(topics@)[0]);
            assert(target@ == views_of(topics@)[1]);
        }
        plan.insert(source, target);
        proof {
            assert(all_groups.take(i + 1).drop_last() =~= all_groups.take(i as int));
            assert(all_groups.take(i + 1).last() == all_groups[i as int]);
        }
        i = i + 1;
    }
    proof {
        assert(all_groups.take(all_groups.len() as int) =~= all_groups);
    }
    Ok(plan)
}

} // verus!
