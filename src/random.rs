//! Random placement of recycled platforms.
use vstd::prelude::*;
use crate::fixed::abs;
use crate::world::{draw_ok, in_range, step_spec, Draw, StepOutcome, World, JITTER, LATERAL_BAND, PLATFORM_COUNT};

verus! {

/// Relies on rand's `thread_rng().gen_range(lo..=hi)`, which returns a value
/// of the inclusive range and panics on an empty one (ruled out here).
/// `thread_rng` itself panics if the operating system cannot seed it.
#[verifier::external_body]
fn random_between(lo: i64, hi: i64) -> (r: i64)
    requires
        lo <= hi,
    ensures
        lo <= r <= hi,
{
    rand::Rng::gen_range(&mut rand::thread_rng(), lo..=hi)
}

/// One fresh draw per platform: a place across within the lateral band and
/// a vertical jitter.
pub fn draw_platforms() -> (r: Vec<Draw>)
    ensures
        r@.len() == PLATFORM_COUNT,
        forall|i: int| 0 <= i < r@.len() ==> #[trigger] draw_ok(r@[i]),
{
    let mut r: Vec<Draw> = Vec::new();
    let mut i: usize = 0;
    while i < PLATFORM_COUNT
        invariant
            i <= PLATFORM_COUNT,
            r@.len() == i,
            forall|j: int| 0 <= j < i ==> #[trigger] draw_ok(r@[j]),
        decreases PLATFORM_COUNT - i,
    {
        let x: i64 = random_between(-LATERAL_BAND, LATERAL_BAND);
        let jitter: i64 = random_between(-JITTER, JITTER);
        assert(abs(x as int) <= LATERAL_BAND && abs(jitter as int) <= JITTER);
        r.push(Draw { x, jitter });
        i = i + 1;
    }
    r
}

impl World {
    /// One step with freshly drawn placements. A world whose coordinates
    /// have left the range in which a step is exact starts over from the
    /// initial layout.
    pub fn advance(&mut self, dir: i64, jump_down: bool) -> (r: StepOutcome)
        requires
            -1 <= dir <= 1,
        ensures
            in_range(old(self)@) ==> exists|d: Seq<Draw>|
                d.len() == PLATFORM_COUNT && (forall|i: int| 0 <= i < d.len() ==> #[trigger] draw_ok(d[i]))
                    && (final(self)@, r) == step_spec(old(self)@, dir as int, jump_down, d),
            !in_range(old(self)@) ==> final(self)@ == World::initial() && r == StepOutcome::Reset,
    {
        if !self.in_range() {
            *self = World::new();
            return StepOutcome::Reset;
        }
        let draws = draw_platforms();
        let r = self.step(dir, jump_down, &draws);
        assert(draws@.len() == PLATFORM_COUNT && (forall|i: int| 0 <= i < draws@.len() ==> #[trigger] draw_ok(draws@[i]))
            && (self@, r) == step_spec(old(self)@, dir as int, jump_down, draws@));
        r
    }
}

} // verus!
