//! Termination policy of the recursive light-path integrator.
//!
//! The integrator follows one camera ray through the scene bounce by bounce.
//! At each step the renderer reports what happened — the ray missed every
//! object, or it hit a surface whose material scattered it onward, or the
//! material absorbed it. The policy decided here is when the walk stops and
//! with which terminal color source: the sky gradient on a miss at any
//! depth, black on absorption, and black unconditionally once the depth
//! cutoff is reached, however the surface would have scattered.

use vstd::prelude::*;

verus! {

/// Hard cutoff on the bounce depth of one light path.
pub const MAX_DEPTH: u32 = 50;

/// What tracing one ray through the scene reported.
#[derive(Clone, Copy, PartialEq, Eq, Structural, Debug)]
pub enum TraceEvent {
    /// The ray hit no object in range: the background shows through.
    Miss,
    /// The ray hit a surface and its material produced a scattered ray.
    Scattered,
    /// The ray hit a surface and its material absorbed the path.
    Absorbed,
}

/// What the integrator does next with the path.
#[derive(Clone, Copy, PartialEq, Eq, Structural, Debug)]
pub enum PathAction {
    /// Stop and return the sky-gradient color of the current ray.
    EmitSky,
    /// Stop and return black (zero radiance).
    EmitBlack,
    /// Multiply in the surface attenuation and follow the scattered ray.
    Bounce,
}

/// Which terminal color source a finished path draws from.
#[derive(Clone, Copy, PartialEq, Eq, Structural, Debug)]
pub enum PathVerdict {
    /// The path escaped the scene: the sky gradient, attenuated once per bounce.
    Sky,
    /// The path was absorbed or cut off: black.
    Black,
}

/// The integrator's decision at one step of a path at the given depth.
pub open spec fn spec_step(depth: int, ev: TraceEvent) -> PathAction {
    match ev {
        TraceEvent::Miss => PathAction::EmitSky,
        TraceEvent::Scattered => (if depth < MAX_DEPTH as int {
            PathAction::Bounce
        } else {
            PathAction::EmitBlack
        }),
        TraceEvent::Absorbed => PathAction::EmitBlack,
    }
}

/// Decide one step of the integrator.
///
/// A miss always emits the sky gradient, whatever the depth. A surface hit
/// at or beyond the depth cutoff emits black regardless of how the material
/// reacted; below the cutoff, a scattered path bounces on and an absorbed
/// path emits black.
pub fn path_step(depth: u32, ev: TraceEvent) -> (a: PathAction)
    ensures
        a == spec_step(depth as int, ev),
{
    match ev {
        TraceEvent::Miss => PathAction::EmitSky,
        TraceEvent::Scattered => {
            if depth < MAX_DEPTH {
                PathAction::Bounce
            } else {
                PathAction::EmitBlack
            }
        },
        TraceEvent::Absorbed => PathAction::EmitBlack,
    }
}

/// The verdict and bounce count of a whole path, given the per-step events
/// in order, starting at the given depth. `None` when the event list ends
/// before the walk terminates.
pub open spec fn spec_trace(events: Seq<TraceEvent>, depth: int) -> Option<(PathVerdict, nat)>
    decreases events.len(),
{
    if events.len() == 0 {
        None
    } else {
        match spec_step(depth, events[0]) {
            PathAction::EmitSky => Some((PathVerdict::Sky, 0nat)),
            PathAction::EmitBlack => Some((PathVerdict::Black, 0nat)),
            PathAction::Bounce => match spec_trace(events.drop_first(), depth + 1) {
                None => None,
                Some(end) => Some((end.0, end.1 + 1)),
            },
        }
    }
}

/// Walk one light path over the reported events, starting at depth zero.
///
/// Returns the terminal verdict and how many bounces the path took before
/// it — the number of attenuation factors the renderer multiplies into the
/// terminal color. `None` when the event list ran out first; a list holding
/// one more event than the depth cutoff can never run out.
pub fn trace_path(events: &Vec<TraceEvent>) -> (r: Option<(PathVerdict, usize)>)
    ensures
        r matches Some(end) ==> spec_trace(events@, 0) == Some((end.0, end.1 as nat)),
        r is None ==> spec_trace(events@, 0) is None,
        r matches Some(end) ==> end.1 <= MAX_DEPTH,
        events@.len() > MAX_DEPTH ==> r is Some,
{
    let mut i: usize = 0;
    let mut depth: u32 = 0;
    proof {
        assert(events@.skip(0) =~= events@);
    }
    loop
        invariant
            depth as int == i as int,
            depth <= MAX_DEPTH,
            i <= events.len(),
            spec_trace(events@, 0) == spec_add_bounces(
                spec_trace(events@.skip(i as int), depth as int),
                i as nat,
            ),
        decreases MAX_DEPTH - depth,
    {
        if i >= events.len() {
            proof {
                assert(events@.skip(i as int) =~= Seq::<TraceEvent>::empty());
            }
            return None;
        }
        let ev = events[i];
        proof {
            assert(events@.skip(i as int)[0] == events@[i as int]);
            assert(events@.skip(i as int).drop_first() =~= events@.skip(i as int + 1));
        }
        match path_step(depth, ev) {
            PathAction::EmitSky => {
                return Some((PathVerdict::Sky, i));
            },
            PathAction::EmitBlack => {
                return Some((PathVerdict::Black, i));
            },
            PathAction::Bounce => {
                i = i + 1;
                depth = depth + 1;
            },
        }
    }
}

/// Shift a partial trace result by bounces already taken.
pub open spec fn spec_add_bounces(r: Option<(PathVerdict, nat)>, taken: nat) -> Option<
    (PathVerdict, nat),
> {
    match r {
        None => None,
        Some(end) => Some((end.0, end.1 + taken)),
    }
}

/// A path whose first event is a miss ends at once with the sky gradient,
/// at every depth — the integrator returns exactly the background value for
/// any ray that misses every object.
pub proof fn lemma_miss_yields_sky(events: Seq<TraceEvent>, depth: int)
    requires
        events.len() > 0,
        events[0] == TraceEvent::Miss,
    ensures
        spec_trace(events, depth) == Some((PathVerdict::Sky, 0nat)),
{
}

/// A path that keeps hitting surfaces until the depth cutoff ends black,
/// whatever material sits at the cutoff: after `MAX_DEPTH - depth` scatter
/// events, any further surface hit — scattered or absorbed — is cut off.
pub proof fn lemma_cutoff_yields_black(events: Seq<TraceEvent>, depth: int)
    requires
        0 <= depth <= MAX_DEPTH as int,
        events.len() > MAX_DEPTH as int - depth,
        forall|k: int| 0 <= k < MAX_DEPTH as int - depth ==> events[k] == TraceEvent::Scattered,
        events[MAX_DEPTH as int - depth] != TraceEvent::Miss,
    ensures
        spec_trace(events, depth) == Some((PathVerdict::Black, (MAX_DEPTH as int - depth) as nat)),
    decreases MAX_DEPTH as int - depth,
{
    if depth < MAX_DEPTH as int {
        assert(events[0] == TraceEvent::Scattered);
        lemma_cutoff_yields_black(events.drop_first(), depth + 1);
    }
}

} // verus!
