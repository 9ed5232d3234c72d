use vstd::prelude::*;
use crate::interaction::InteractionState;

verus! {

/// Least mass of the anchor body, the first one, which dominates the others.
pub const ANCHOR_MASS_MIN: u32 = 500;
/// Greatest mass of the anchor body.
pub const ANCHOR_MASS_MAX: u32 = 1500;
/// Least mass of every body but the anchor.
pub const BODY_MASS_MIN: u32 = 50;
/// Greatest mass of every body but the anchor.
pub const BODY_MASS_MAX: u32 = 500;

/// The mass range that body `index` is drawn from.
pub open spec fn spec_mass_range(index: int) -> (u32, u32) {
    if index == 0 {
        (ANCHOR_MASS_MIN, ANCHOR_MASS_MAX)
    } else {
        (BODY_MASS_MIN, BODY_MASS_MAX)
    }
}

/// The mass range that body `index` is drawn from: the first body is the
/// heavy anchor, all others are light.
pub fn mass_range(index: usize) -> (r: (u32, u32))
    ensures
        r == spec_mass_range(index as int),
{
    if index == 0 {
        (ANCHOR_MASS_MIN, ANCHOR_MASS_MAX)
    } else {
        (BODY_MASS_MIN, BODY_MASS_MAX)
    }
}

/// `bodies` holds one body per index, each drawn by `draw` from the mass
/// range of its index.
pub open spec fn drawn_by_index<B, F: Fn((u32, u32)) -> B>(draw: F, bodies: Seq<B>) -> bool {
    forall|i: int| 0 <= i < bodies.len() ==> call_ensures(draw, (spec_mass_range(i),), #[trigger] bodies[i])
}

/// Builds `count` bodies in index order; body `i` is what `draw` returns for
/// the mass range of index `i`.
pub fn initialize_bodies<B, F: Fn((u32, u32)) -> B>(count: usize, draw: F) -> (r: Vec<B>)
    requires
        forall|range: (u32, u32)| call_requires(draw, (range,)),
    ensures
        r@.len() == count,
        drawn_by_index(draw, r@),
{
    let mut bodies: Vec<B> = Vec::new();
    let mut i: usize = 0;
    while i < count
        invariant
            i <= count,
            bodies@.len() == i,
            forall|range: (u32, u32)| call_requires(draw, (range,)),
            forall|j: int| 0 <= j < i ==> call_ensures(draw, (spec_mass_range(j),), #[trigger] bodies@[j]),
        decreases count - i,
    {
        let range = mass_range(i);
        let body = draw(range);
        bodies.push(body);
        i = i + 1;
    }
    bodies
}

/// However many bodies are made, the first is drawn from the anchor's mass
/// range, 500 to 1500, and every other one from the light range, 50 to 500.
pub proof fn lemma_anchor_then_light<B, F: Fn((u32, u32)) -> B>(draw: F, bodies: Seq<B>)
    requires
        bodies.len() >= 1,
        drawn_by_index(draw, bodies),
    ensures
        call_ensures(draw, ((500u32, 1500u32),), bodies[0]),
        forall|i: int|
            1 <= i < bodies.len() ==> call_ensures(draw, ((50u32, 500u32),), #[trigger] bodies[i]),
{
    assert(call_ensures(draw, (spec_mass_range(0),), bodies[0]));
    assert forall|i: int| 1 <= i < bodies.len() implies call_ensures(
        draw,
        ((50u32, 500u32),),
        #[trigger] bodies[i],
    ) by {
        assert(call_ensures(draw, (spec_mass_range(i),), bodies[i]));
    }
}

/// `after` is what one step makes of `before`: the same snapshot while
/// paused, else what `advance` returns for it.
pub open spec fn stepped<S, F: Fn(&S) -> S>(before: S, paused: bool, advance: F, after: S) -> bool {
    if paused {
        after == before
    } else {
        call_ensures(advance, (&before,), after)
    }
}

proof fn lemma_paused_prefix<S, F: Fn(&S) -> S>(run: Seq<S>, advance: F, k: int)
    requires
        0 <= k < run.len(),
        forall|m: int| 0 <= m < run.len() - 1 ==> stepped(run[m], true, advance, #[trigger] run[m + 1]),
    ensures
        run[k] == run[0],
    decreases k,
{
    if k > 0 {
        lemma_paused_prefix(run, advance, k - 1);
        let m = k - 1;
        assert(stepped(run[m], true, advance, run[m + 1]));
    }
}

/// Stepping while paused, any number of times, leaves the snapshot as it
/// was: where each snapshot of `run` is one paused step of the one before,
/// all of them are the first.
pub proof fn lemma_paused_steps_keep_snapshot<S, F: Fn(&S) -> S>(run: Seq<S>, advance: F)
    requires
        forall|k: int| 0 <= k < run.len() - 1 ==> stepped(run[k], true, advance, #[trigger] run[k + 1]),
    ensures
        forall|k: int| 0 <= k < run.len() ==> #[trigger] run[k] == run[0],
{
    assert forall|k: int| 0 <= k < run.len() implies #[trigger] run[k] == run[0] by {
        lemma_paused_prefix(run, advance, k);
    }
}

/// The current snapshot of the simulation, replaced whole by each step or
/// reset and never changed in place.
pub struct Simulation<S> {
    pub snapshot: S,
}

impl<S> Simulation<S> {
    pub fn new(snapshot: S) -> (r: Self)
        ensures
            r.snapshot == snapshot,
    {
        Simulation { snapshot }
    }

    /// One physics tick: unless paused, the snapshot is replaced by what
    /// `advance` makes of it; while paused it stays as it is.
    pub fn step<F: Fn(&S) -> S>(&mut self, paused: bool, advance: F)
        requires
            !paused ==> call_requires(advance, (&old(self).snapshot,)),
        ensures
            stepped(old(self).snapshot, paused, advance, final(self).snapshot),
    {
        if !paused {
            let next = advance(&self.snapshot);
            self.snapshot = next;
        }
    }

    /// Regenerates the snapshot for a window of `window` size, if one is known:
    /// the new snapshot is what `regenerate` builds for that size, and the
    /// follow is dropped. With no window nothing changes. Returns whether the
    /// reset took place, in which case the caller recentres the camera.
    pub fn reset<P: Copy, F: Fn(u32, u32) -> S>(
        &mut self,
        state: &mut InteractionState<P>,
        window: Option<(u32, u32)>,
        regenerate: F,
    ) -> (r: bool)
        requires
            forall|w: u32, h: u32| call_requires(regenerate, (w, h)),
        ensures
            r == window is Some,
            match window {
                Some(size) => {
                    &&& call_ensures(regenerate, (size.0, size.1), final(self).snapshot)
                    &&& final(state).follow_body_index is None
                },
                None => {
                    &&& final(self).snapshot == old(self).snapshot
                    &&& final(state).follow_body_index == old(state).follow_body_index
                },
            },
            final(state).panning == old(state).panning,
            final(state).zooming == old(state).zooming,
            final(state).paused == old(state).paused,
            final(state).cursor_position == old(state).cursor_position,
    {
        match window {
            Some((w, h)) => {
                let next = regenerate(w, h);
                self.snapshot = next;
                state.follow_body_index = None;
                true
            },
            None => false,
        }
    }
}

/// Visual sync: visual entity `i` takes the position of body `i`. The two
/// lists must be as long as each other.
pub fn sync_positions<P: Copy>(visuals: &mut Vec<P>, bodies: &Vec<P>)
    requires
        old(visuals)@.len() == bodies@.len(),
    ensures
        final(visuals)@ == bodies@,
{
    let mut i: usize = 0;
    while i < bodies.len()
        invariant
            i <= bodies@.len(),
            visuals@.len() == bodies@.len(),
            forall|j: int| 0 <= j < i ==> visuals@[j] == bodies@[j],
        decreases bodies@.len() - i,
    {
        visuals.set(i, bodies[i]);
        i = i + 1;
    }
    assert(visuals@ =~= bodies@);
}

} // verus!
