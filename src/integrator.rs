use vstd::prelude::*;

verus! {

/// What became of one traced ray: it left the scene, the material of the
/// nearest surface it hit absorbed it, or that material scattered it into a
/// new ray.
#[derive(Clone, Copy, Debug, PartialEq, Eq, Structural)]
pub enum Bounce {
    Miss,
    Absorbed,
    Scattered,
}

/// The light at the end of a path, before the attenuations of its scatters
/// are multiplied in.
#[derive(Clone, Copy, Debug, PartialEq, Eq, Structural)]
pub enum PathEnd {
    /// No light: the bounce budget ran out, or a surface absorbed the ray.
    Black,
    /// The background gradient seen along the last ray, which missed.
    Background,
}

/// What the caller of the integrator does next on a path.
#[derive(Clone, Copy, Debug, PartialEq, Eq, Structural)]
pub enum Step {
    /// Trace the current ray against the scene and record the bounce.
    Trace,
    /// The path is over; its color is the product of the recorded
    /// attenuations times this end.
    Finish(PathEnd),
}

/// The step taken with `remaining` bounces left: a path out of bounces ends
/// black, any other traces its ray.
pub open spec fn step_for(remaining: nat) -> Step {
    if remaining == 0 {
        Step::Finish(PathEnd::Black)
    } else {
        Step::Trace
    }
}

/// How a path of bounce budget `depth` ends when its traced rays meet
/// `bounces` in turn, with the number of scatters whose attenuations its color
/// multiplies; `None` when `bounces` runs out before the path ends.
pub open spec fn outcome(depth: nat, bounces: Seq<Bounce>) -> Option<(PathEnd, nat)>
    decreases bounces.len(),
{
    if depth == 0 {
        Some((PathEnd::Black, 0))
    } else if bounces.len() == 0 {
        None
    } else {
        match bounces[0] {
            Bounce::Miss => Some((PathEnd::Background, 0)),
            Bounce::Absorbed => Some((PathEnd::Black, 0)),
            Bounce::Scattered => match outcome((depth - 1) as nat, bounces.drop_first()) {
                Some((end, n)) => Some((end, n + 1)),
                None => None,
            },
        }
    }
}

/// The abstract state of a path: the bounces it may still trace, and the
/// scatters so far.
pub struct PathView {
    pub remaining: nat,
    pub scatters: nat,
}

/// The depth-bounded state of one camera sample's path through the scene.
///
/// Each traced ray that scatters spends one unit of the budget; the path
/// ends black when the budget is spent, black when a surface absorbs the ray,
/// and on the background when the ray misses every object.
pub struct Path {
    remaining: usize,
    scatters: usize,
}

impl View for Path {
    type V = PathView;

    closed spec fn view(&self) -> PathView {
        PathView { remaining: self.remaining as nat, scatters: self.scatters as nat }
    }
}

impl Path {
    #[verifier::type_invariant]
    spec fn inv(self) -> bool {
        self.remaining + self.scatters <= usize::MAX
    }

    /// A path that has not traced yet, with `depth` bounces to spend.
    pub fn new(depth: usize) -> (p: Path)
        ensures
            p@.remaining == depth,
            p@.scatters == 0,
    {
        Path { remaining: depth, scatters: 0 }
    }

    /// The bounces this path may still trace.
    pub fn remaining(&self) -> (r: usize)
        ensures
            r == self@.remaining,
    {
        self.remaining
    }

    /// The number of scatters so far, which is the number of attenuations
    /// that the path's color multiplies.
    pub fn scatters(&self) -> (r: usize)
        ensures
            r == self@.scatters,
    {
        self.scatters
    }

    /// What to do first on this path: black at once when no bounce is left,
    /// else trace.
    pub fn next_step(&self) -> (s: Step)
        ensures
            s == step_for(self@.remaining),
    {
        if self.remaining == 0 {
            Step::Finish(PathEnd::Black)
        } else {
            Step::Trace
        }
    }

    /// Records what became of the ray just traced, and returns what to do
    /// next: a miss ends on the background, an absorption ends black, and a
    /// scatter spends one bounce and goes on with the scattered ray.
    pub fn record(&mut self, bounce: Bounce) -> (s: Step)
        requires
            old(self)@.remaining > 0,
        ensures
            bounce == Bounce::Miss ==> s == Step::Finish(PathEnd::Background) && final(self)@
                == old(self)@,
            bounce == Bounce::Absorbed ==> s == Step::Finish(PathEnd::Black) && final(self)@
                == old(self)@,
            bounce == Bounce::Scattered ==> final(self)@.remaining == old(self)@.remaining - 1
                && final(self)@.scatters == old(self)@.scatters + 1 && s == step_for(
                final(self)@.remaining,
            ),
    {
        match bounce {
            Bounce::Miss => Step::Finish(PathEnd::Background),
            Bounce::Absorbed => Step::Finish(PathEnd::Black),
            Bounce::Scattered => {
                proof {
                    use_type_invariant(&*self);
                }
                self.remaining = self.remaining - 1;
                self.scatters = self.scatters + 1;
                self.next_step()
            },
        }
    }
}

/// `o` seen from `k` scatters earlier on the same path: the same end, with
/// those `k` attenuations counted in.
pub open spec fn after_scatters(o: Option<(PathEnd, nat)>, k: nat) -> Option<(PathEnd, nat)> {
    match o {
        Some((end, n)) => Some((end, n + k)),
        None => None,
    }
}

/// Runs a path of bounce budget `depth` whose traced rays meet `bounces` in
/// turn: returns how it ends and how many attenuations its color multiplies,
/// or `None` when `bounces` runs out while the path still traces.
pub fn resolve_path(depth: usize, bounces: &Vec<Bounce>) -> (r: Option<(PathEnd, usize)>)
    ensures
        outcome(depth as nat, bounces@) == match r {
            Some((end, n)) => Some((end, n as nat)),
            None => None,
        },
{
    let mut path = Path::new(depth);
    let mut i: usize = 0;
    assert(bounces@.skip(0) =~= bounces@);
    while i < bounces.len()
        invariant
            i <= bounces@.len(),
            path@.remaining + path@.scatters == depth,
            path@.scatters == i,
            outcome(depth as nat, bounces@) == after_scatters(
                outcome(path@.remaining, bounces@.skip(i as int)),
                i as nat,
            ),
        decreases bounces.len() - i,
    {
        if let Step::Finish(end) = path.next_step() {
            return Some((end, path.scatters()));
        }
        let bounce = bounces[i];
        let ghost rest = bounces@.skip(i as int);
        assert(rest.drop_first() =~= bounces@.skip(i + 1));
        assert(rest.len() > 0 && rest[0] == bounce);
        let ghost before = path@.remaining;
        let ghost tail = outcome((before - 1) as nat, rest.drop_first());
        assert(outcome(before, rest) == match bounce {
            Bounce::Miss => Some((PathEnd::Background, 0nat)),
            Bounce::Absorbed => Some((PathEnd::Black, 0nat)),
            Bounce::Scattered => after_scatters(tail, 1),
        });
        assert(before == 1 ==> tail == Some((PathEnd::Black, 0nat)));
        assert(after_scatters(after_scatters(tail, 1), i as nat) == after_scatters(
            tail,
            (i + 1) as nat,
        ));
        if let Step::Finish(end) = path.record(bounce) {
            return Some((end, path.scatters()));
        }
        i = i + 1;
    }
    match path.next_step() {
        Step::Finish(end) => Some((end, path.scatters())),
        Step::Trace => None,
    }
}

/// A path with no bounce budget left is black, whatever its rays would meet:
/// the integrator returns black at depth zero on any ray and any scene.
pub proof fn exhausted_path_is_black(bounces: Seq<Bounce>)
    ensures
        outcome(0, bounces) == Some((PathEnd::Black, 0nat)),
{
}

/// A path whose ray, after `k` scatters within its budget, reaches a surface
/// that absorbs it is black: its color is `k` attenuations times black.
pub proof fn absorbed_path_is_black(depth: nat, bounces: Seq<Bounce>, k: nat)
    requires
        k < depth,
        k < bounces.len(),
        forall|j: int| 0 <= j < k ==> bounces[j] == Bounce::Scattered,
        bounces[k as int] == Bounce::Absorbed,
    ensures
        outcome(depth, bounces) == Some((PathEnd::Black, k)),
    decreases k,
{
    if k > 0 {
        let rest = bounces.drop_first();
        assert forall|j: int| 0 <= j < k - 1 implies rest[j] == Bounce::Scattered by {
            assert(bounces[j + 1] == Bounce::Scattered);
        }
        absorbed_path_is_black((depth - 1) as nat, rest, (k - 1) as nat);
        assert(bounces[0] == Bounce::Scattered);
    }
}

/// A path multiplies at most as many attenuations as its bounce budget: each
/// scatter spends one bounce, so the recursion is bounded by the depth.
pub proof fn scatters_within_depth(depth: nat, bounces: Seq<Bounce>)
    ensures
        outcome(depth, bounces) matches Some((_, n)) ==> n <= depth,
    decreases bounces.len(),
{
    if depth > 0 && bounces.len() > 0 {
        scatters_within_depth((depth - 1) as nat, bounces.drop_first());
    }
}

} // verus!
