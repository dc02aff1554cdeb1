//! The simulation's random source: an injected capability threaded through
//! generation, smoothing, seeding and tick functions.
//!
//! A source either draws from the process-wide system generator or replays a
//! fixed script of raw draws, which makes every randomized operation of the
//! simulation reproducible in tests. Probabilities are expressed per mille:
//! a trial with threshold `t` succeeds when a draw below 1000 lands below `t`.

use vstd::prelude::*;

verus! {

/// A random source: either the system generator or a deterministic script.
pub struct RandomSource {
    pub scripted: bool,
    pub script: Vec<usize>,
    pub pos: usize,
}

impl RandomSource {
    /// What a scripted source returns from a draw below `n`: the next raw
    /// script value reduced modulo `n`, or 0 once the script is exhausted.
    pub open spec fn scripted_draw(self, n: int) -> int {
        if self.pos < self.script@.len() {
            self.script@[self.pos as int] as int % n
        } else {
            0
        }
    }

    /// The source as it stands after one draw.
    pub open spec fn stepped(self) -> RandomSource {
        if self.pos < self.script@.len() {
            RandomSource { scripted: self.scripted, script: self.script, pos: (self.pos + 1) as usize }
        } else {
            self
        }
    }

    /// A source backed by the process-wide system generator.
    pub fn system() -> (r: RandomSource)
        ensures
            !r.scripted,
    {
        RandomSource { scripted: false, script: Vec::new(), pos: 0 }
    }

    /// A deterministic source that replays the given raw draws in order.
    pub fn from_script(script: Vec<usize>) -> (r: RandomSource)
        ensures
            r.scripted,
            r.script@ == script@,
            r.pos == 0,
    {
        RandomSource { scripted: true, script, pos: 0 }
    }

    /// Draws a value below `n`: uniformly at random from the system
    /// generator, or deterministically from the script.
    pub fn next_below(&mut self, n: usize) -> (r: usize)
        requires
            n > 0,
        ensures
            r < n,
            final(self).scripted == old(self).scripted,
            final(self).script@ == old(self).script@,
            old(self).scripted ==> r == old(self).scripted_draw(n as int) && *final(self)
                == old(self).stepped(),
            !old(self).scripted ==> *final(self) == *old(self),
    {
        if self.scripted {
            if self.pos < self.script.len() {
                let v = self.script[self.pos];
                self.pos = self.pos + 1;
                v % n
            } else {
                0
            }
        } else {
            sample_below(n)
        }
    }
}

/// A Bernoulli trial with probability `threshold` per mille: draws a value
/// below 1000 and succeeds exactly when the draw lands below `threshold`.
pub fn prob(rng: &mut RandomSource, threshold: usize) -> (r: bool)
    ensures
        final(rng).scripted == old(rng).scripted,
        final(rng).script@ == old(rng).script@,
        old(rng).scripted ==> r == (old(rng).scripted_draw(1000) < threshold) && *final(rng)
            == old(rng).stepped(),
        !old(rng).scripted ==> *final(rng) == *old(rng),
{
    let d = rng.next_below(1000);
    d < threshold
}

/// Relies on `rand::Rng::gen_range` over the thread-local generator of
/// `rand::thread_rng`: on the nonempty range `0..n` it returns a uniformly
/// distributed value that is at least 0 and strictly below `n`, and it does
/// not panic.
#[verifier::external_body]
fn sample_below(n: usize) -> (r: usize)
    requires
        n > 0,
    ensures
        r < n,
{
    rand::Rng::gen_range(&mut rand::thread_rng(), 0..n)
}

} // verus!
