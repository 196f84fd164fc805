use sickle_sim::allele::Allele;
use sickle_sim::allele::count_allele;
use sickle_sim::allele::generate_alleles;
use sickle_sim::encoder::parse_alleles;
use sickle_sim::encoder::parsed_to_string;
use sickle_sim::engine::SimConfig;
use sickle_sim::engine::run_simulation;
use sickle_sim::engine::run_simulation_from;
use sickle_sim::engine::step_generation;
use sickle_sim::sampler::get_genes;
use sickle_sim::selection::run_generation;
use sickle_sim::selection::select_survivors;

#[test]
fn generate_alleles_counts() {
    let pool = generate_alleles(75, 25);
    assert_eq!(pool.len(), 100);
    assert_eq!(count_allele(&pool, Allele::A), 75);
    assert_eq!(count_allele(&pool, Allele::S), 25);

    let all_a = generate_alleles(100, 0);
    assert_eq!(count_allele(&all_a, Allele::A), 100);
    assert_eq!(count_allele(&all_a, Allele::S), 0);

    let all_s = generate_alleles(0, 100);
    assert_eq!(count_allele(&all_s, Allele::A), 0);
    assert_eq!(count_allele(&all_s, Allele::S), 100);
}

#[test]
fn get_genes_uses_every_allele_once() {
    let pool = generate_alleles(75, 25);
    let genes = get_genes(pool);
    assert_eq!(genes.len(), 50);
    let mut a = 0;
    let mut s = 0;
    for (x, y) in genes {
        for allele in [x, y] {
            match allele {
                Allele::A => a += 1,
                Allele::S => s += 1,
            }
        }
    }
    assert_eq!(a, 75);
    assert_eq!(s, 25);
}

#[test]
fn get_genes_small_even_pool() {
    let pool = vec![Allele::A, Allele::S, Allele::S, Allele::S];
    let genes = get_genes(pool);
    assert_eq!(genes.len(), 2);
    let mut a = 0;
    let mut s = 0;
    for (x, y) in genes {
        for allele in [x, y] {
            match allele {
                Allele::A => a += 1,
                Allele::S => s += 1,
            }
        }
    }
    assert_eq!(a, 1);
    assert_eq!(s, 3);
}

#[test]
fn get_genes_pairs_at_random() {
    // An ordered 50/50 pool pairs into homozygotes only if the pool is not
    // shuffled; a uniform shuffle yields a heterozygote in at least one of
    // several tries except with negligible probability.
    let mut het_seen = false;
    for _ in 0..5 {
        let pool = generate_alleles(50, 50);
        for (x, y) in get_genes(pool) {
            if x != y {
                het_seen = true;
            }
        }
    }
    assert!(het_seen);
}

#[test]
fn selection_removes_every_ss_genotype() {
    let genes = vec![(Allele::S, Allele::S); 10];
    let pool = select_survivors(&genes, 50);
    assert_eq!(pool.len(), 0);
}

#[test]
fn selection_keeps_every_heterozygote() {
    let mut genes = vec![(Allele::A, Allele::S); 7];
    genes.extend(vec![(Allele::S, Allele::A); 4]);
    let pool = select_survivors(&genes, 50);
    assert_eq!(pool.len(), 22);
    assert_eq!(count_allele(&pool, Allele::A), 11);
    assert_eq!(count_allele(&pool, Allele::S), 11);
}

#[test]
fn selection_with_no_homozygote_survival() {
    let mut genes = vec![(Allele::A, Allele::A); 5];
    genes.extend(vec![(Allele::A, Allele::S); 3]);
    genes.push((Allele::S, Allele::S));
    let pool = select_survivors(&genes, 0);
    assert_eq!(pool.len(), 6);
    assert_eq!(count_allele(&pool, Allele::A), 3);
    assert_eq!(count_allele(&pool, Allele::S), 3);
}

#[test]
fn selection_with_full_homozygote_survival() {
    let mut genes = vec![(Allele::A, Allele::A); 5];
    genes.extend(vec![(Allele::A, Allele::S); 3]);
    genes.push((Allele::S, Allele::S));
    let pool = select_survivors(&genes, 100);
    assert_eq!(pool.len(), 16);
    assert_eq!(count_allele(&pool, Allele::A), 13);
    assert_eq!(count_allele(&pool, Allele::S), 3);
}

#[test]
fn selection_output_is_even_and_bounded() {
    let genes = vec![
        (Allele::A, Allele::A),
        (Allele::A, Allele::S),
        (Allele::S, Allele::S),
        (Allele::A, Allele::A),
    ];
    for percent in [0, 25, 50, 75, 100] {
        let pool = select_survivors(&genes, percent);
        assert_eq!(pool.len() % 2, 0);
        assert!(pool.len() <= 2 * genes.len());
        assert_eq!(count_allele(&pool, Allele::S), 1);
    }
}

#[test]
fn parse_alleles_exact_percentages() {
    let pool = vec![Allele::A, Allele::A, Allele::A, Allele::S];
    let summary = parse_alleles(&pool);
    assert_eq!(summary.percent_a, 75);
    assert_eq!(summary.percent_s, 25);
    assert_eq!(summary.count_a, 3);
    assert_eq!(summary.count_s, 1);
}

#[test]
fn parse_alleles_tiebreak_restores_the_missing_point() {
    let pool = vec![Allele::A, Allele::A, Allele::S];
    let summary = parse_alleles(&pool);
    assert_eq!(summary.count_a, 2);
    assert_eq!(summary.count_s, 1);
    assert_eq!(summary.percent_a + summary.percent_s, 100);
    assert!(summary.percent_a == 66 || summary.percent_a == 67);
    assert!(summary.percent_s == 33 || summary.percent_s == 34);
}

#[test]
fn regenerate_then_summarize_round_trip() {
    for (a, s) in [(75, 25), (0, 100), (100, 0), (33, 67), (1, 99)] {
        let pool = generate_alleles(a, s);
        assert_eq!(pool.len(), 100);
        let summary = parse_alleles(&pool);
        assert_eq!(summary.percent_a, a);
        assert_eq!(summary.percent_s, s);
        assert_eq!(summary.count_a, a);
        assert_eq!(summary.count_s, s);
    }
}

#[test]
fn all_a_population_is_absorbing() {
    let cfg = SimConfig { survival_percent: 50, initial_a: 100, initial_s: 0 };
    let next = step_generation(&cfg, 100, 0);
    assert_eq!(next, (100, 0));
    let summary = run_simulation_from(&cfg, 200);
    assert_eq!(summary.percent_a, 100);
    assert_eq!(summary.percent_s, 0);
}

#[test]
fn all_s_population_dies_out_and_stays_fixed() {
    let pool = generate_alleles(0, 100);
    let survivors = run_generation(pool, 50);
    assert_eq!(survivors.len(), 0);

    let cfg = SimConfig { survival_percent: 50, initial_a: 0, initial_s: 100 };
    let next = step_generation(&cfg, 0, 100);
    assert_eq!(next, (0, 100));
    let summary = run_simulation_from(&cfg, 50);
    assert_eq!(summary.percent_a, 0);
    assert_eq!(summary.percent_s, 100);
}

#[test]
fn no_selection_pressure_drifts_only_through_pairing() {
    let cfg = SimConfig { survival_percent: 100, initial_a: 75, initial_s: 25 };
    let summary = run_simulation_from(&cfg, 1);
    assert_eq!(summary.percent_a + summary.percent_s, 100);
    assert!(summary.percent_a >= 75);
    assert!(summary.percent_s <= 25);
}

#[test]
fn run_simulation_reports_a_full_split() {
    let result = run_simulation(100);
    assert_eq!(result.0 + result.1, 100);
    assert!(result.0 >= 0 && result.0 <= 100);
    assert!(result.1 >= 0 && result.1 <= 100);
    assert!(result.1 <= 50);
}

#[test]
fn run_simulation_without_generations_keeps_the_start() {
    assert_eq!(run_simulation(0), (75, 25));

    let cfg = SimConfig { survival_percent: 50, initial_a: 40, initial_s: 60 };
    let summary = run_simulation_from(&cfg, 0);
    assert_eq!(summary.percent_a, 40);
    assert_eq!(summary.percent_s, 60);
}

#[test]
fn summary_line_format() {
    assert_eq!(parsed_to_string((75, 25, 75, 25)), "A: 75 (75%), S: 25 (25%)");
    assert_eq!(parsed_to_string((0, 100, 0, 100)), "A: 0 (0%), S: 100 (100%)");
}

#[test]
fn balancing_selection_keeps_s_near_equilibrium() {
    let cfg = SimConfig { survival_percent: 50, initial_a: 75, initial_s: 25 };
    let mut finals_s: Vec<i32> = Vec::new();
    for _ in 0..20 {
        let summary = run_simulation_from(&cfg, 2000);
        assert_eq!(summary.percent_a + summary.percent_s, 100);
        finals_s.push(summary.percent_s);
    }
    finals_s.sort();
    let median = (finals_s[9] + finals_s[10]) / 2;
    assert!(
        (5..=65).contains(&median),
        "median percent_s {} far from the balancing-selection band",
        median
    );
}
