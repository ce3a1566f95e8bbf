//! The bounce and termination policy of the radiance integrator.
//!
//! Following one camera ray through the scene alternates two kinds of work:
//! asking the scene what happened to the current ray, and deciding what to do
//! next. The first is numeric (intersection and scattering); the decisions
//! are made here, one step per scene query.

use vstd::prelude::*;

verus! {

/// The number of bounces a path may take before it is cut off.
pub const MAX_DEPTH: u32 = 50;

/// What the scene did with the current ray.
#[derive(Clone, Copy, Debug, PartialEq, Eq, Structural)]
pub enum Surface {
    /// Nothing was struck: the ray escapes to the sky.
    Miss,
    /// A surface was struck and its material absorbed the ray.
    Absorbed,
    /// A surface was struck and its material sent out a new ray.
    Scattered,
}

/// What the integrator does next.
#[derive(Clone, Copy, Debug, PartialEq, Eq, Structural)]
pub enum Action {
    /// Stop; the path receives the background color, scaled by the
    /// attenuation gathered so far.
    Sky,
    /// Stop; the path contributes no light.
    Black,
    /// Multiply the attenuation by the scattering material's color and
    /// follow the scattered ray.
    Follow,
}

/// The policy at one step, at `depth` bounces taken out of at most `max`:
/// the depth afterwards and the action. A scattered ray is followed only
/// while the depth limit is not reached; past it the path ends as if
/// absorbed.
pub open spec fn next(depth: nat, max: nat, s: Surface) -> (nat, Action) {
    match s {
        Surface::Miss => (depth, Action::Sky),
        Surface::Absorbed => (depth, Action::Black),
        Surface::Scattered => if depth < max {
            (depth + 1, Action::Follow)
        } else {
            (depth, Action::Black)
        },
    }
}

/// A whole path: the scene answers `events` in turn, starting at `depth`
/// bounces. The result is the number of scene queries made and the last
/// action; it is `Follow` only where the events ran out first.
pub open spec fn run(depth: nat, max: nat, events: Seq<Surface>) -> (nat, Action)
    decreases events.len(),
{
    if events.len() == 0 {
        (0, Action::Follow)
    } else {
        let (d, a) = next(depth, max, events[0]);
        if a == Action::Follow {
            let (n, last) = run(d, max, events.drop_first());
            (n + 1, last)
        } else {
            (1, a)
        }
    }
}

/// The state of one path being traced.
pub struct Path {
    depth: u32,
    max_depth: u32,
}

impl Path {
    /// The depth never passes the limit.
    pub open spec fn wf(&self) -> bool {
        self.depth_spec() <= self.max_depth_spec()
    }

    pub closed spec fn depth_spec(&self) -> nat {
        self.depth as nat
    }

    pub closed spec fn max_depth_spec(&self) -> nat {
        self.max_depth as nat
    }

    /// A path that has not bounced yet and may bounce `max_depth` times.
    pub fn new(max_depth: u32) -> (p: Path)
        ensures
            p.wf(),
            p.depth_spec() == 0,
            p.max_depth_spec() == max_depth,
    {
        Path { depth: 0, max_depth }
    }

    /// Bounces taken so far.
    pub fn depth(&self) -> (r: u32)
        ensures
            r == self.depth_spec(),
    {
        self.depth
    }

    /// The depth limit.
    pub fn max_depth(&self) -> (r: u32)
        ensures
            r == self.max_depth_spec(),
    {
        self.max_depth
    }

    /// Decides what follows once the scene has answered for the current ray.
    pub fn step(&mut self, s: Surface) -> (a: Action)
        requires
            old(self).wf(),
        ensures
            final(self).wf(),
            final(self).max_depth_spec() == old(self).max_depth_spec(),
            (final(self).depth_spec(), a) == next(
                old(self).depth_spec(),
                old(self).max_depth_spec(),
                s,
            ),
    {
        match s {
            Surface::Miss => Action::Sky,
            Surface::Absorbed => Action::Black,
            Surface::Scattered => {
                if self.depth < self.max_depth {
                    self.depth = self.depth + 1;
                    Action::Follow
                } else {
                    Action::Black
                }
            },
        }
    }
}

/// Every path ends: whatever the scene answers, the integrator stops after
/// at most `max - depth + 1` scene queries, that is after at most
/// `max - depth` bounces, and never follows a ray past the depth limit.
pub proof fn lemma_path_ends(depth: nat, max: nat, events: Seq<Surface>)
    requires
        depth <= max,
        events.len() > max - depth,
    ensures
        run(depth, max, events).0 <= max - depth + 1,
        run(depth, max, events).1 != Action::Follow,
    decreases events.len(),
{
    let (d, a) = next(depth, max, events[0]);
    if a == Action::Follow {
        lemma_path_ends(d, max, events.drop_first());
    }
}

/// Between two facing mirrors every ray scatters; a path that starts there
/// takes exactly `max` bounces, then stops with no light after `max + 1`
/// scene queries.
pub proof fn lemma_mirrors_stop_at_limit(depth: nat, max: nat, events: Seq<Surface>)
    requires
        depth <= max,
        events.len() > max - depth,
        forall|k: int| 0 <= k < events.len() ==> #[trigger] events[k] == Surface::Scattered,
    ensures
        run(depth, max, events) == ((max - depth + 1) as nat, Action::Black),
    decreases events.len(),
{
    if depth < max {
        lemma_mirrors_stop_at_limit(depth + 1, max, events.drop_first());
    }
}

/// A path whose first surface absorbs ends at that surface: one scene query,
/// no bounce, and no light.
pub proof fn lemma_absorbed_ends_at_once(depth: nat, max: nat, events: Seq<Surface>)
    requires
        events.len() > 0,
        events[0] == Surface::Absorbed,
    ensures
        run(depth, max, events) == (1nat, Action::Black),
{
}

} // verus!
