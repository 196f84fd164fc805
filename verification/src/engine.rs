use crate::allele::Allele;
use crate::allele::TOTAL_ALLELES;
use crate::allele::count_of;
use crate::allele::generate_alleles;
use crate::encoder::GenerationSummary;
use crate::encoder::parse_alleles;
use crate::encoder::trunc_percent;
use crate::selection::run_generation;
use vstd::arithmetic::div_mod::lemma_div_is_ordered;
use vstd::arithmetic::div_mod::lemma_div_is_ordered_by_denominator;
use vstd::arithmetic::div_mod::lemma_div_multiples_vanish;
use vstd::prelude::*;

verus! {

/// Default number of independent simulated populations a runner launches.
pub const NUM_POOLS: usize = 20;

/// Default number of generations each population is run for.
pub const GENS_PER_POOL: i32 = 100_000;

/// Default survival chance of an `(A,A)` genotype, in percent.
pub const MALARIA_SURVIVAL_PERCENT: u32 = 50;

/// Default number of `A` alleles in a fresh population's pool.
pub const INITIAL_A: i32 = 75;

/// Default number of `S` alleles in a fresh population's pool.
pub const INITIAL_S: i32 = 25;

/// The tunable parameters of one simulated population: the survival chance
/// of an `(A,A)` genotype (in percent) and the initial pool composition,
/// which must fill the fixed pool size exactly.
#[derive(Clone, Copy, Debug, PartialEq, Eq, Structural)]
pub struct SimConfig {
    pub survival_percent: u32,
    pub initial_a: i32,
    pub initial_s: i32,
}

impl SimConfig {
    pub open spec fn wf(self) -> bool {
        &&& self.survival_percent <= 100
        &&& 0 <= self.initial_a
        &&& 0 <= self.initial_s
        &&& self.initial_a + self.initial_s == TOTAL_ALLELES as int
    }

    /// The default configuration: a 75 A / 25 S start under a 50%
    /// homozygote survival chance.
    pub fn standard() -> (cfg: SimConfig)
        ensures
            cfg.wf(),
            cfg.survival_percent == MALARIA_SURVIVAL_PERCENT,
            cfg.initial_a == INITIAL_A,
            cfg.initial_s == INITIAL_S,
    {
        SimConfig {
            survival_percent: MALARIA_SURVIVAL_PERCENT,
            initial_a: INITIAL_A,
            initial_s: INITIAL_S,
        }
    }
}

/// Advance one generation from the composition `(percent_a, percent_s)`:
/// regenerate the canonical pool, pair it into genotypes, apply selection,
/// and summarize the survivors into the next composition. When selection
/// leaves no survivors at all (an all-`(S,S)` extinction has no pool to
/// summarize), the composition is carried forward unchanged — the chosen
/// convention for that edge, documented here in place of the summarize
/// invariant that an empty pool would break.
///
/// Both fixation states are absorbing: a composition without `S` alleles
/// steps to itself, as does a composition without `A` alleles, since
/// neither allele can be created from nothing.
///
/// Because surviving `S` alleles never outnumber surviving `A`s, any step
/// that actually summarizes survivors leaves the `S` share at or below
/// half; only the carry-forward on extinction can keep a larger share, and
/// an odd `A` percentage rules even that out (the odd `A` forces a
/// surviving heterozygote). With full homozygote survival the `A` share
/// never drops: selection then removes only `(S,S)` pairs.
pub fn step_generation(cfg: &SimConfig, percent_a: i32, percent_s: i32) -> (next: (i32, i32))
    requires
        cfg.wf(),
        0 <= percent_a,
        0 <= percent_s,
        percent_a + percent_s == TOTAL_ALLELES as int,
    ensures
        0 <= next.0,
        0 <= next.1,
        next.0 + next.1 == TOTAL_ALLELES as int,
        percent_s == 0 ==> next == (TOTAL_ALLELES, 0i32),
        percent_a == 0 ==> next == (0i32, TOTAL_ALLELES),
        (next.0 == percent_a && next.1 == percent_s) || next.1 <= 50,
        percent_a % 2 == 1 ==> next.1 <= 50,
        cfg.survival_percent == 100 ==> next.0 >= percent_a,
{
    let pool = generate_alleles(percent_a, percent_s);
    let survivors = run_generation(pool, cfg.survival_percent);
    if survivors.len() == 0 {
        (percent_a, percent_s)
    } else {
        proof {
            let l = survivors@.len() as int;
            let ca = count_of(survivors@, Allele::A) as int;
            let cs = count_of(survivors@, Allele::S) as int;
            lemma_div_multiples_vanish(0, l);
            lemma_div_multiples_vanish(100, l);
            lemma_div_multiples_vanish(50, l);
            lemma_div_is_ordered(cs * 100, 50 * l, l);
            lemma_div_is_ordered(cs * 100, ca * 100, l);
            assert(trunc_percent(cs, l) <= 50);
            if percent_s == 0 {
                assert(cs == 0);
                assert(ca == l);
                assert(trunc_percent(cs, l) == 0);
                assert(trunc_percent(ca, l) == 100);
            }
            if cfg.survival_percent == 100 {
                lemma_div_is_ordered_by_denominator(ca * 100, l, 100);
                lemma_div_multiples_vanish(ca, 100);
                assert(trunc_percent(ca, l) >= ca);
            }
        }
        let summary = parse_alleles(&survivors);
        (summary.percent_a, summary.percent_s)
    }
}

/// Run one population for the given number of generations, starting from
/// the configured composition, and report its final summary, computed on
/// the pool regenerated from the last composition. Because the pool is
/// regenerated to the fixed size before the final summary, its counts
/// equal its percentages, and the tie-break path cannot fire.
///
/// The fixation states are absorbing across the whole run: a start without
/// `S` alleles ends at 100% `A`, and a start without `A` alleles ends at
/// 100% `S`, however many generations are run. A run of no generations at
/// all reports the initial composition exactly. An `S` share that starts
/// at or below half can never rise above half, and under full homozygote
/// survival the `A` share never drops below its start — selection then
/// removes only `(S,S)` pairs, so any drift comes from the random pairing
/// alone.
pub fn run_simulation_from(cfg: &SimConfig, generations: i32) -> (summary: GenerationSummary)
    requires
        cfg.wf(),
    ensures
        0 <= summary.percent_a,
        0 <= summary.percent_s,
        summary.percent_a + summary.percent_s == TOTAL_ALLELES as int,
        summary.count_a == summary.percent_a,
        summary.count_s == summary.percent_s,
        cfg.initial_s == 0 ==> summary.percent_a == TOTAL_ALLELES && summary.percent_s == 0,
        cfg.initial_a == 0 ==> summary.percent_a == 0 && summary.percent_s == TOTAL_ALLELES,
        generations <= 0 ==> summary.percent_a == cfg.initial_a && summary.percent_s
            == cfg.initial_s,
        cfg.initial_s <= 50 ==> summary.percent_s <= 50,
        cfg.survival_percent == 100 ==> summary.percent_a >= cfg.initial_a,
{
    let mut percent_a = cfg.initial_a;
    let mut percent_s = cfg.initial_s;
    let mut gen_num: i32 = 0;
    while gen_num < generations
        invariant
            cfg.wf(),
            0 <= gen_num,
            0 <= percent_a,
            0 <= percent_s,
            percent_a + percent_s == TOTAL_ALLELES as int,
            cfg.initial_s == 0 ==> percent_a == TOTAL_ALLELES && percent_s == 0,
            cfg.initial_a == 0 ==> percent_a == 0 && percent_s == TOTAL_ALLELES,
            generations <= 0 ==> percent_a == cfg.initial_a && percent_s == cfg.initial_s,
            cfg.initial_s <= 50 ==> percent_s <= 50,
            cfg.survival_percent == 100 ==> percent_a >= cfg.initial_a,
        decreases generations - gen_num,
    {
        let next = step_generation(cfg, percent_a, percent_s);
        percent_a = next.0;
        percent_s = next.1;
        gen_num = gen_num + 1;
    }
    let pool = generate_alleles(percent_a, percent_s);
    proof {
        crate::encoder::lemma_regenerate_round_trip(percent_a as int, percent_s as int);
    }
    parse_alleles(&pool)
}

/// Run one population under the default configuration and report its
/// final `(percent_a, percent_s)` pair. A run of no generations reports
/// the default 75/25 start exactly, and since that start has an `S` share
/// below half, the reported `S` share can never exceed half.
pub fn run_simulation(generations: i32) -> (result: (i32, i32))
    ensures
        0 <= result.0,
        0 <= result.1,
        result.0 + result.1 == TOTAL_ALLELES as int,
        generations <= 0 ==> result.0 == INITIAL_A && result.1 == INITIAL_S,
        result.1 <= 50,
{
    let cfg = SimConfig::standard();
    let summary = run_simulation_from(&cfg, generations);
    (summary.percent_a, summary.percent_s)
}

} // verus!
