//! The simulation: one growing price path plus the run's fixed parameters.
//!
//! The numeric step of geometric Brownian motion — one standard-normal draw
//! turned into a multiplicative update of the previous price — is
//! floating-point work and is done by the caller. The simulation records
//! each finished price, keeps the path's invariants, and decides after each
//! step whether the chart must be redrawn: on every `render_cadence`-th
//! step and on the final step.

use vstd::prelude::*;

use crate::path::PricePath;
use crate::price::{price_bits_wf, Price, INFINITY_BITS};

verus! {

/// Bit pattern of the default start price, 100.
pub const DEFAULT_START_BITS: u64 = 0x4059_0000_0000_0000;

/// Bit pattern of the default annual drift, 5 percent.
pub const DEFAULT_MU_BITS: u64 = 0x3FA9_9999_9999_999A;

/// Bit pattern of the default annual volatility, 20 percent.
pub const DEFAULT_SIGMA_BITS: u64 = 0x3FC9_9999_9999_999A;

/// Bit pattern of the default time increment, one 252nd of a year.
pub const DEFAULT_DELTA_T_BITS: u64 = 0x3F70_4104_1041_0410;

/// Number of steps of the default run: one trading year of daily steps.
pub const DEFAULT_TIME_STEPS: usize = 252;

/// Default redraw cadence: every tenth step, plus the final step.
pub const DEFAULT_RENDER_CADENCE: usize = 10;

/// The run's parameters. The drift, volatility and time-increment terms are
/// carried as opaque bit patterns for the caller's numeric code; the
/// library itself reads only the start price, the step count and the
/// render cadence.
#[derive(Clone, Copy, PartialEq, Eq, Structural, Debug)]
pub struct SimConfig {
    pub start: Price,
    pub mu_bits: u64,
    pub sigma_bits: u64,
    pub delta_t_bits: u64,
    pub time_steps: usize,
    pub render_cadence: usize,
}

impl SimConfig {
    /// A configuration is well formed when its start price is, it asks for
    /// at least the start price itself, and its cadence is positive.
    pub open spec fn wf(self) -> bool {
        &&& self.start.wf()
        &&& self.time_steps >= 1
        &&& self.render_cadence >= 1
    }
}

impl Default for SimConfig {
    /// The default run: start price 100, drift 0.05, volatility 0.2, 252
    /// daily steps of one 252nd of a year, a redraw every tenth step.
    fn default() -> (c: SimConfig)
        ensures
            c.wf(),
            c.start@ == DEFAULT_START_BITS,
            c.mu_bits == DEFAULT_MU_BITS,
            c.sigma_bits == DEFAULT_SIGMA_BITS,
            c.delta_t_bits == DEFAULT_DELTA_T_BITS,
            c.time_steps == DEFAULT_TIME_STEPS,
            c.render_cadence == DEFAULT_RENDER_CADENCE,
    {
        let start = Price::from_bits(DEFAULT_START_BITS);
        SimConfig {
            start: start.unwrap(),
            mu_bits: DEFAULT_MU_BITS,
            sigma_bits: DEFAULT_SIGMA_BITS,
            delta_t_bits: DEFAULT_DELTA_T_BITS,
            time_steps: DEFAULT_TIME_STEPS,
            render_cadence: DEFAULT_RENDER_CADENCE,
        }
    }
}

/// Whether the chart is redrawn after the step with index `step` of a run
/// of `total` steps: on every `cadence`-th step and on the final step.
pub open spec fn should_render(step: int, total: int, cadence: int) -> bool
    recommends
        cadence >= 1,
{
    step % cadence == 0 || step == total - 1
}

/// The path determined by a start price and the successive step prices:
/// the start followed by the steps, in order. The generator is a pure
/// function of these inputs; randomness enters only through the steps the
/// caller derives from its draws.
pub open spec fn path_from_steps(start: u64, steps: Seq<u64>) -> Seq<u64> {
    seq![start] + steps
}

/// One run in progress: the accumulated path and the fixed parameters.
pub struct Simulation {
    path: PricePath,
    config: SimConfig,
}

impl View for Simulation {
    type V = Seq<u64>;

    closed spec fn view(&self) -> Seq<u64> {
        self.path@
    }
}

impl Simulation {
    /// The parameters this run was started with.
    pub closed spec fn cfg(self) -> SimConfig {
        self.config
    }

    /// A simulation is well formed when its parameters and path are, the
    /// path never outgrows the requested step count, and element 0 is the
    /// configured start price.
    pub open spec fn wf(self) -> bool {
        &&& self.cfg().wf()
        &&& 1 <= self@.len() <= self.cfg().time_steps
        &&& self@[0] == self.cfg().start@
        &&& forall|i: int| 0 <= i < self@.len() ==> price_bits_wf(#[trigger] self@[i])
    }

    /// A fresh run: the path holds exactly the start price.
    pub fn new(config: SimConfig) -> (s: Simulation)
        requires
            config.wf(),
        ensures
            s.wf(),
            s.cfg() == config,
            s@ == seq![config.start@],
    {
        Simulation { path: PricePath::new(config.start), config }
    }

    /// The path recorded so far.
    pub fn path(&self) -> (p: &PricePath)
        ensures
            p@ == self@,
            self.wf() ==> p.wf(),
    {
        &self.path
    }

    /// The number of prices recorded so far.
    pub fn len(&self) -> (n: usize)
        ensures
            n == self@.len(),
    {
        self.path.len()
    }

    /// The parameters this run was started with.
    pub fn config(&self) -> (c: SimConfig)
        ensures
            c == self.cfg(),
    {
        self.config
    }

    /// A run is complete when it has recorded all of its steps.
    pub open spec fn complete(self) -> bool {
        self@.len() == self.cfg().time_steps
    }

    /// Whether the run has recorded all of its steps.
    pub fn is_complete(&self) -> (r: bool)
        ensures
            r == self.complete(),
    {
        self.path.len() == self.config.time_steps
    }

    /// Records the next simulated price and says whether the chart must be
    /// redrawn now: after every `render_cadence`-th step and after the
    /// final step.
    pub fn record_step(&mut self, next: Price) -> (render: bool)
        requires
            old(self).wf(),
            old(self)@.len() < old(self).cfg().time_steps,
            next.wf(),
        ensures
            final(self).wf(),
            final(self).cfg() == old(self).cfg(),
            final(self)@ == old(self)@.push(next@),
            render == should_render(
                old(self)@.len() as int,
                old(self).cfg().time_steps as int,
                old(self).cfg().render_cadence as int,
            ),
    {
        let step = self.path.len();
        self.path.push(next);
        step % self.config.render_cadence == 0 || step == self.config.time_steps - 1
    }

    /// Records a fixed sequence of step prices in order. Its result is
    /// pinned by its inputs alone, so two runs over equal inputs end with
    /// equal paths.
    pub fn replay(config: SimConfig, steps: &Vec<Price>) -> (s: Simulation)
        requires
            config.wf(),
            steps@.len() == config.time_steps - 1,
            forall|i: int| 0 <= i < steps@.len() ==> (#[trigger] steps@[i]).wf(),
        ensures
            s.wf(),
            s.cfg() == config,
            s@ == path_from_steps(config.start@, steps@.map_values(|p: Price| p@)),
    {
        let ghost step_bits = steps@.map_values(|p: Price| p@);
        let mut s = Simulation::new(config);
        let mut i: usize = 0;
        while i < steps.len()
            invariant
                s.wf(),
                s.cfg() == config,
                config.wf(),
                step_bits == steps@.map_values(|p: Price| p@),
                steps@.len() == config.time_steps - 1,
                forall|k: int| 0 <= k < steps@.len() ==> (#[trigger] steps@[k]).wf(),
                0 <= i <= steps@.len(),
                s@ == seq![config.start@] + step_bits.take(i as int),
            decreases steps@.len() - i,
        {
            let next = steps[i];
            let _render = s.record_step(next);
            proof {
                assert(step_bits.take(i + 1) =~= step_bits.take(i as int).push(step_bits[i as int]));
                assert(s@ =~= seq![config.start@] + step_bits.take(i + 1));
            }
            i = i + 1;
        }
        proof {
            assert(step_bits.take(steps@.len() as int) =~= step_bits);
        }
        s
    }
}

/// Every price a well-formed simulation holds is strictly positive and
/// finite: its bit pattern lies strictly between zero and the pattern of
/// positive infinity. The property does not depend on how the price was
/// produced; any step the caller derives from a drawn value, of either
/// sign, is admitted only in this range.
pub proof fn lemma_prices_strictly_positive(s: Simulation, i: int)
    requires
        s.wf(),
        0 <= i < s@.len(),
    ensures
        0 < s@[i] < INFINITY_BITS,
{
    assert(price_bits_wf(s@[i]));
}

/// A complete well-formed run holds exactly `time_steps` prices, and its
/// element 0 is the configured start price.
pub proof fn lemma_complete_path_shape(s: Simulation)
    requires
        s.wf(),
        s.complete(),
    ensures
        s@.len() == s.cfg().time_steps,
        s@[0] == s.cfg().start@,
{
}

} // verus!
