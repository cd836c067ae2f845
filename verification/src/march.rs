//! Sphere tracing as a state machine.
//!
//! A march walks along a ray by the distance that the scene reports at
//! each position. The machine decides when to probe the scene again and
//! what to report at the end; its caller measures the scene and adds up
//! the distance traveled. A march probes at most `MARCH_ITERS` times.

use vstd::prelude::*;
use crate::scalar::Scalar;
use crate::scene::{Sample, BACKGROUND};

verus! {

/// The largest number of probes in one march.
pub const MARCH_ITERS: usize = 100;

/// The pattern of `0.001`: a reported distance below it is a surface.
pub const INTERS_PRECISION_BITS: u64 = 0x3f50_624d_d2f1_a9fc;

/// The pattern of `0.002`, twice the precision: the distance that a march
/// holds before its first probe.
pub const OPENING_GAP_BITS: u64 = 0x3f60_624d_d2f1_a9fc;

/// The pattern of `30.0`: a ray that has traveled further has escaped.
pub const MAX_DIST_BITS: u64 = 0x403e_0000_0000_0000;

/// The precision as a scalar.
pub open spec fn precision() -> Scalar {
    Scalar { bits: INTERS_PRECISION_BITS }
}

/// The largest distance as a scalar.
pub open spec fn max_dist() -> Scalar {
    Scalar { bits: MAX_DIST_BITS }
}

/// What a march reports: the distance traveled along the ray and the
/// material found there, `BACKGROUND` where no surface was found.
#[derive(Clone, Copy, Debug, PartialEq, Eq, Structural)]
pub struct Hit {
    pub distance: Scalar,
    pub material: usize,
}

/// The state of a march: the probes made so far, the distance traveled,
/// and the scene's last answer.
#[derive(Clone, Copy, Debug, PartialEq, Eq, Structural)]
pub struct March {
    pub probes: usize,
    pub traveled: Scalar,
    pub last: Sample,
}

/// What a march asks of its caller next.
#[derive(Clone, Copy, Debug, PartialEq, Eq, Structural)]
pub enum Step {
    /// Measure the scene at the ray's origin plus its direction times this
    /// distance, and hand the answer to `advance`.
    Probe(Scalar),
    /// The march is over, with this result.
    Done(Hit),
}

impl March {
    /// The state before the first probe.
    pub open spec fn opening() -> March {
        March {
            probes: 0,
            traveled: Scalar { bits: 0 },
            last: Sample { distance: Scalar { bits: OPENING_GAP_BITS }, material: BACKGROUND },
        }
    }

    /// The last answer lies below the precision: a surface was reached.
    pub open spec fn converged(self) -> bool {
        self.last.distance.spec_lt(precision())
    }

    /// The ray has traveled beyond the largest distance.
    pub open spec fn escaped(self) -> bool {
        max_dist().spec_lt(self.traveled)
    }

    /// The march goes on: probes are left, and the ray has neither
    /// reached a surface nor escaped.
    pub open spec fn wants_probe(self) -> bool {
        self.probes < MARCH_ITERS && !self.converged() && !self.escaped()
    }

    /// The result of a march that ends in this state: the distance
    /// traveled and the last material while that distance is below the
    /// largest, and otherwise the largest distance and the background,
    /// whatever the last material was.
    pub open spec fn verdict(self) -> Hit {
        if self.traveled.spec_lt(max_dist()) {
            Hit { distance: self.traveled, material: self.last.material }
        } else {
            Hit { distance: max_dist(), material: BACKGROUND }
        }
    }

    /// The state after a probe that was answered with `sample` and
    /// brought the distance traveled to `traveled`. A march that is over
    /// stays as it is.
    pub open spec fn after(self, sample: Sample, traveled: Scalar) -> March {
        if self.wants_probe() {
            March { probes: (self.probes + 1) as usize, traveled, last: sample }
        } else {
            self
        }
    }

    /// The state after a run of probes, each given as the scene's answer
    /// and the distance traveled after it.
    pub open spec fn after_all(self, answers: Seq<(Sample, Scalar)>) -> March
        decreases answers.len(),
    {
        if answers.len() == 0 {
            self
        } else {
            self.after_all(answers.drop_last()).after(answers.last().0, answers.last().1)
        }
    }

    /// Starts a march at distance zero.
    pub fn begin() -> (r: March)
        ensures
            r == March::opening(),
    {
        March {
            probes: 0,
            traveled: Scalar::from_bits(0),
            last: Sample { distance: Scalar::from_bits(OPENING_GAP_BITS), material: BACKGROUND },
        }
    }

    /// What the march asks for next: another probe at the distance
    /// traveled, or nothing more.
    pub fn step(&self) -> (r: Step)
        ensures
            self.wants_probe() ==> r == Step::Probe(self.traveled),
            !self.wants_probe() ==> r == Step::Done(self.verdict()),
    {
        let precision = Scalar::from_bits(INTERS_PRECISION_BITS);
        let limit = Scalar::from_bits(MAX_DIST_BITS);
        if self.probes < MARCH_ITERS && !self.last.distance.lt(precision) && !limit.lt(
            self.traveled,
        ) {
            Step::Probe(self.traveled)
        } else if self.traveled.lt(limit) {
            Step::Done(Hit { distance: self.traveled, material: self.last.material })
        } else {
            Step::Done(Hit { distance: limit, material: BACKGROUND })
        }
    }

    /// Records the answer to a probe: `sample` is what the scene reported
    /// at the distance traveled so far, and `traveled` is that distance
    /// plus the reported one. A march that is over ignores the call.
    pub fn advance(&mut self, sample: Sample, traveled: Scalar)
        ensures
            *final(self) == old(self).after(sample, traveled),
    {
        let precision = Scalar::from_bits(INTERS_PRECISION_BITS);
        let limit = Scalar::from_bits(MAX_DIST_BITS);
        if self.probes < MARCH_ITERS && !self.last.distance.lt(precision) && !limit.lt(
            self.traveled,
        ) {
            self.probes = self.probes + 1;
            self.traveled = traveled;
            self.last = sample;
        }
    }
}

/// A run of answers never brings the number of probes above the number
/// of answers, nor above the budget.
pub proof fn lemma_probes_bounded(start: March, answers: Seq<(Sample, Scalar)>)
    requires
        start.probes <= MARCH_ITERS,
    ensures
        start.after_all(answers).probes <= MARCH_ITERS,
        start.after_all(answers).probes <= start.probes + answers.len(),
        start.after_all(answers).wants_probe() ==> start.after_all(answers).probes == start.probes
            + answers.len(),
    decreases answers.len(),
{
    if answers.len() > 0 {
        lemma_probes_bounded(start, answers.drop_last());
    }
}

/// Every march is over after `MARCH_ITERS` answers, whatever they were.
pub proof fn lemma_march_terminates(answers: Seq<(Sample, Scalar)>)
    requires
        answers.len() >= MARCH_ITERS,
    ensures
        !March::opening().after_all(answers).wants_probe(),
{
    lemma_probes_bounded(March::opening(), answers);
}

/// A march that is over stays in its state, and so keeps its verdict.
pub proof fn lemma_done_is_final(m: March, answers: Seq<(Sample, Scalar)>)
    requires
        !m.wants_probe(),
    ensures
        m.after_all(answers) == m,
    decreases answers.len(),
{
    if answers.len() > 0 {
        lemma_done_is_final(m, answers.drop_last());
    }
}

/// The material that a march reports is the background or the material
/// of one of the answers it was given.
pub proof fn lemma_report_comes_from_an_answer(answers: Seq<(Sample, Scalar)>)
    ensures
        March::opening().after_all(answers).last.material == BACKGROUND || exists|i: int|
            0 <= i < answers.len() && (#[trigger] answers[i]).0
                == March::opening().after_all(answers).last,
        March::opening().after_all(answers).verdict().material == BACKGROUND
            || March::opening().after_all(answers).verdict().material
            == March::opening().after_all(answers).last.material,
    decreases answers.len(),
{
    if answers.len() > 0 {
        let front = answers.drop_last();
        lemma_report_comes_from_an_answer(front);
        let before = March::opening().after_all(front);
        let now = March::opening().after_all(answers);
        if before.wants_probe() {
            assert(answers[answers.len() - 1].0 == now.last);
        } else if before.last.material != BACKGROUND {
            let i = choose|i: int| 0 <= i < front.len() && (#[trigger] front[i]).0 == before.last;
            assert(answers[i].0 == now.last);
        }
    }
}

/// A march that is answered with the background alone reports the
/// background.
pub proof fn lemma_void_is_background(answers: Seq<(Sample, Scalar)>)
    requires
        forall|i: int| 0 <= i < answers.len() ==> (#[trigger] answers[i]).0.material == BACKGROUND,
    ensures
        March::opening().after_all(answers).verdict().material == BACKGROUND,
{
    lemma_report_comes_from_an_answer(answers);
}

/// The first probe is always asked for, at distance zero.
pub proof fn lemma_first_probe()
    ensures
        March::opening().wants_probe(),
        March::opening().traveled.rank() == 0,
{
}

/// A march whose distance traveled is not below the largest distance
/// reports that distance and the background, whatever it last touched; a
/// distance that is not a number counts as not below.
pub proof fn lemma_overshoot_is_background(m: March)
    requires
        !m.traveled.spec_lt(max_dist()),
    ensures
        m.verdict() == (Hit { distance: max_dist(), material: BACKGROUND }),
{
}

/// A march that reached a surface before the largest distance is over
/// and reports the distance traveled and the material last touched.
pub proof fn lemma_surface_is_reported(m: March)
    requires
        m.converged(),
        m.traveled.spec_lt(max_dist()),
    ensures
        !m.wants_probe(),
        m.verdict() == (Hit { distance: m.traveled, material: m.last.material }),
{
}

/// Whenever the distance traveled is a number not below zero, the
/// distance that a march reports is a number between zero and the largest
/// distance.
pub proof fn lemma_verdict_within_range(m: March)
    requires
        !m.traveled.is_nan(),
        m.traveled.rank() >= 0,
    ensures
        !m.verdict().distance.is_nan(),
        0 <= m.verdict().distance.rank() <= max_dist().rank(),
{
}

} // verus!
