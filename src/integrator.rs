//! The bounce budget of the recursive radiance integrator.
//!
//! A path starts with a budget of `max_depth` bounces. While budget is left the
//! integrator queries the scene for the current ray: on a hit the surface
//! scatters the ray and one bounce is spent; on a miss the path escapes and
//! carries the background. When the budget is spent the path carries black.
//! The color of a path is the product of the attenuations of its bounces with
//! the color it ends on; that arithmetic is left to the caller.
use vstd::prelude::*;

verus! {

/// How a path ends.
#[derive(Clone, Copy, Debug, PartialEq, Eq, Structural)]
pub enum PathEnd {
    /// The bounce budget ran out: the path carries black.
    Exhausted,
    /// The ray left the scene: the path carries the background gradient.
    Escaped,
}

/// What the scene query for the current ray returned.
#[derive(Clone, Copy, Debug, PartialEq, Eq, Structural)]
pub enum QueryOutcome {
    Hit,
    Miss,
}

/// What the integrator does next.
#[derive(Clone, Copy, Debug, PartialEq, Eq, Structural)]
pub enum Step {
    /// Query the scene with the current ray and report the outcome.
    Query,
    /// Stop: the path ends as given.
    Finish(PathEnd),
}

/// The state of a path: budget left, bounces taken, and how it ended.
pub ghost struct PathModel {
    pub remaining: nat,
    pub bounces: nat,
    pub end: Option<PathEnd>,
}

impl PathModel {
    pub open spec fn wf(self) -> bool {
        &&& self.end is None ==> self.remaining > 0
        &&& self.end == Some(PathEnd::Exhausted) ==> self.remaining == 0
    }
}

/// The state of a path that has `max_depth` bounces to spend.
pub open spec fn initial(max_depth: nat) -> PathModel {
    PathModel {
        remaining: max_depth,
        bounces: 0,
        end: if max_depth == 0 { Some(PathEnd::Exhausted) } else { None },
    }
}

/// The state after the scene query of a path in state `m` returned `o`.
/// A path that has ended stays as it is.
pub open spec fn next(m: PathModel, o: QueryOutcome) -> PathModel {
    if m.end is Some {
        m
    } else {
        match o {
            QueryOutcome::Hit => PathModel {
                remaining: (m.remaining - 1) as nat,
                bounces: m.bounces + 1,
                end: if m.remaining == 1 { Some(PathEnd::Exhausted) } else { None },
            },
            QueryOutcome::Miss => PathModel { end: Some(PathEnd::Escaped), ..m },
        }
    }
}

/// The state after the queries of a path in state `m` returned `outcomes`.
pub open spec fn replay(m: PathModel, outcomes: Seq<QueryOutcome>) -> PathModel
    decreases outcomes.len(),
{
    if outcomes.len() == 0 {
        m
    } else {
        replay(next(m, outcomes[0]), outcomes.drop_first())
    }
}

/// Replaying queries never changes the sum of budget left and bounces taken,
/// and keeps a path well formed.
proof fn lemma_replay_keeps_budget(m: PathModel, outcomes: Seq<QueryOutcome>)
    requires
        m.wf(),
    ensures
        replay(m, outcomes).wf(),
        replay(m, outcomes).remaining + replay(m, outcomes).bounces == m.remaining + m.bounces,
        m.end is Some ==> replay(m, outcomes) == m,
    decreases outcomes.len(),
{
    if outcomes.len() > 0 {
        lemma_replay_keeps_budget(next(m, outcomes[0]), outcomes.drop_first());
    }
}

/// From a path that has not ended, replaying at least as many queries as
/// budget is left ends it; it ends with the budget spent exactly when each of
/// those queries hit.
proof fn lemma_replay_ends(m: PathModel, outcomes: Seq<QueryOutcome>)
    requires
        m.wf(),
        outcomes.len() >= m.remaining,
    ensures
        replay(m, outcomes).end is Some,
        m.end is None ==> (replay(m, outcomes).end == Some(PathEnd::Exhausted) <==> forall|i: int|
            0 <= i < m.remaining ==> outcomes[i] == QueryOutcome::Hit),
    decreases outcomes.len(),
{
    lemma_replay_keeps_budget(m, outcomes);
    if m.end is None {
        let n = next(m, outcomes[0]);
        let rest = outcomes.drop_first();
        lemma_replay_keeps_budget(n, rest);
        if n.end is None {
            lemma_replay_ends(n, rest);
            assert((forall|i: int| 0 <= i < m.remaining ==> outcomes[i] == QueryOutcome::Hit) <==> (
            outcomes[0] == QueryOutcome::Hit && forall|i: int|
                0 <= i < n.remaining ==> rest[i] == QueryOutcome::Hit)) by {
                if outcomes[0] == QueryOutcome::Hit && forall|i: int|
                    0 <= i < n.remaining ==> rest[i] == QueryOutcome::Hit {
                    assert forall|i: int| 0 <= i < m.remaining implies outcomes[i]
                        == QueryOutcome::Hit by {
                        if i > 0 {
                            assert(outcomes[i] == rest[i - 1]);
                        }
                    }
                }
                if forall|i: int| 0 <= i < m.remaining ==> outcomes[i] == QueryOutcome::Hit {
                    assert(outcomes[0] == QueryOutcome::Hit);
                    assert forall|i: int| 0 <= i < n.remaining implies rest[i]
                        == QueryOutcome::Hit by {
                        assert(rest[i] == outcomes[i + 1]);
                    }
                }
            }
        } else if outcomes[0] == QueryOutcome::Hit {
            assert forall|i: int| 0 <= i < m.remaining implies outcomes[i] == QueryOutcome::Hit by {}
        }
    }
}

/// A path with no budget carries black whatever the scene and the ray: it
/// ends at once, before any query, and no later query changes it.
pub proof fn lemma_no_budget_is_black(outcomes: Seq<QueryOutcome>)
    ensures
        initial(0).end == Some(PathEnd::Exhausted),
        replay(initial(0), outcomes) == initial(0),
{
    lemma_replay_keeps_budget(initial(0), outcomes);
}

/// Every path ends within its budget: after `max_depth` queries it has ended,
/// having taken at most `max_depth` bounces, and it ends black exactly when
/// each of those queries hit a surface.
pub proof fn lemma_path_ends_within_budget(max_depth: nat, outcomes: Seq<QueryOutcome>)
    requires
        outcomes.len() >= max_depth,
    ensures
        replay(initial(max_depth), outcomes).end is Some,
        replay(initial(max_depth), outcomes).bounces <= max_depth,
        replay(initial(max_depth), outcomes).end == Some(PathEnd::Exhausted) <==> forall|i: int|
            0 <= i < max_depth ==> outcomes[i] == QueryOutcome::Hit,
{
    lemma_replay_keeps_budget(initial(max_depth), outcomes);
    lemma_replay_ends(initial(max_depth), outcomes);
}

/// A path through the scene, as the integrator follows it.
pub struct Path {
    remaining: u16,
    bounces: u16,
    end: Option<PathEnd>,
}

impl View for Path {
    type V = PathModel;

    closed spec fn view(&self) -> PathModel {
        PathModel { remaining: self.remaining as nat, bounces: self.bounces as nat, end: self.end }
    }
}

impl Path {
    /// The well-formedness of a path: budget left and bounces taken add up
    /// to at most what a `u16` holds.
    pub closed spec fn wf(&self) -> bool {
        &&& self@.wf()
        &&& self.remaining as nat + self.bounces as nat <= u16::MAX as nat
    }

    /// A path with `max_depth` bounces to spend.
    pub fn new(max_depth: u16) -> (r: Path)
        ensures
            r@ == initial(max_depth as nat),
            r.wf(),
    {
        Path {
            remaining: max_depth,
            bounces: 0,
            end: if max_depth == 0 { Some(PathEnd::Exhausted) } else { None },
        }
    }

    /// What the integrator does next.
    pub fn step(&self) -> (r: Step)
        ensures
            r == (match self@.end {
                Some(e) => Step::Finish(e),
                None => Step::Query,
            }),
    {
        match self.end {
            Some(e) => Step::Finish(e),
            None => Step::Query,
        }
    }

    /// Records what the scene query for the current ray returned.
    pub fn record(&mut self, o: QueryOutcome)
        requires
            old(self).wf(),
        ensures
            final(self)@ == next(old(self)@, o),
            final(self).wf(),
    {
        if self.end.is_none() {
            match o {
                QueryOutcome::Hit => {
                    self.remaining = self.remaining - 1;
                    self.bounces = self.bounces + 1;
                    if self.remaining == 0 {
                        self.end = Some(PathEnd::Exhausted);
                    }
                },
                QueryOutcome::Miss => {
                    self.end = Some(PathEnd::Escaped);
                },
            }
        }
    }

    /// The number of bounces taken so far.
    pub fn bounces(&self) -> (r: u16)
        ensures
            r == self@.bounces,
    {
        self.bounces
    }

    /// The number of bounces left to spend.
    pub fn remaining(&self) -> (r: u16)
        ensures
            r == self@.remaining,
    {
        self.remaining
    }
}

} // verus!
