use crate::allele::Allele;
use crate::allele::TOTAL_ALLELES;
use crate::allele::count_of;
use crate::allele::lemma_count_push;
use crate::allele::lemma_count_total;
use crate::rng::random_percent;
use crate::sampler::genotypes_alleles;
use crate::sampler::get_genes;
use vstd::prelude::*;

verus! {

/// A heterozygote: the genotype carries one allele of each kind.
pub open spec fn is_het(g: (Allele, Allele)) -> bool {
    g.0 != g.1
}

/// Number of heterozygote `(A,S)` / `(S,A)` genotypes in the sequence.
pub open spec fn count_het(gs: Seq<(Allele, Allele)>) -> nat
    decreases gs.len(),
{
    if gs.len() == 0 {
        0
    } else {
        count_het(gs.drop_last()) + (if is_het(gs.last()) {
            1nat
        } else {
            0nat
        })
    }
}

/// Number of `(A,A)` genotypes in the sequence.
pub open spec fn count_aa(gs: Seq<(Allele, Allele)>) -> nat
    decreases gs.len(),
{
    if gs.len() == 0 {
        0
    } else {
        count_aa(gs.drop_last()) + (if gs.last() == (Allele::A, Allele::A) {
            1nat
        } else {
            0nat
        })
    }
}

/// Number of `(S,S)` genotypes in the sequence.
pub open spec fn count_ss(gs: Seq<(Allele, Allele)>) -> nat
    decreases gs.len(),
{
    if gs.len() == 0 {
        0
    } else {
        count_ss(gs.drop_last()) + (if gs.last() == (Allele::S, Allele::S) {
            1nat
        } else {
            0nat
        })
    }
}

pub proof fn lemma_genotype_take_succ(gs: Seq<(Allele, Allele)>, i: int)
    requires
        0 <= i < gs.len(),
    ensures
        count_het(gs.take(i + 1)) == count_het(gs.take(i)) + (if is_het(gs[i]) {
            1nat
        } else {
            0nat
        }),
        count_aa(gs.take(i + 1)) == count_aa(gs.take(i)) + (if gs[i] == (Allele::A, Allele::A) {
            1nat
        } else {
            0nat
        }),
        count_ss(gs.take(i + 1)) == count_ss(gs.take(i)) + (if gs[i] == (Allele::S, Allele::S) {
            1nat
        } else {
            0nat
        }),
{
    assert(gs.take(i + 1).drop_last() =~= gs.take(i));
    assert(gs.take(i + 1).last() == gs[i]);
}

/// The three genotype kinds partition any genotype sequence.
pub proof fn lemma_genotype_kinds_partition(gs: Seq<(Allele, Allele)>)
    ensures
        count_aa(gs) + count_ss(gs) + count_het(gs) == gs.len(),
    decreases gs.len(),
{
    if gs.len() > 0 {
        lemma_genotype_kinds_partition(gs.drop_last());
        assert(gs.last().0 is A || gs.last().0 is S);
        assert(gs.last().1 is A || gs.last().1 is S);
    }
}

/// Each `(A,A)` genotype carries two `A` alleles, each heterozygote one of
/// each kind, each `(S,S)` two `S` alleles.
pub proof fn lemma_genotype_allele_counts(gs: Seq<(Allele, Allele)>)
    ensures
        count_of(genotypes_alleles(gs), Allele::A) == 2 * count_aa(gs) + count_het(gs),
        count_of(genotypes_alleles(gs), Allele::S) == 2 * count_ss(gs) + count_het(gs),
    decreases gs.len(),
{
    if gs.len() > 0 {
        lemma_genotype_allele_counts(gs.drop_last());
        let tail = genotypes_alleles(gs.drop_last());
        let g = gs.last();
        lemma_count_push(tail, g.0, Allele::A);
        lemma_count_push(tail, g.0, Allele::S);
        lemma_count_push(tail.push(g.0), g.1, Allele::A);
        lemma_count_push(tail.push(g.0), g.1, Allele::S);
        assert(g.0 is A || g.0 is S);
        assert(g.1 is A || g.1 is S);
    }
}

/// Apply the survival policy to one generation's genotypes and collect the
/// surviving allele pool:
///
/// - `(A,A)` survives with probability `survival_percent` in 100, drawn
///   fresh per genotype; on survival both alleles pass through.
/// - `(A,S)` and `(S,A)` always survive (heterozygote advantage).
/// - `(S,S)` never survives.
///
/// Which `(A,A)` genotypes survive is random, so the contract pins every
/// outcome: all heterozygote alleles pass through (and are the only source
/// of surviving `S` alleles), surviving `A` alleles beyond the heterozygote
/// ones come in pairs from surviving `(A,A)` genotypes, and nothing else
/// enters the pool. At the policy's endpoints nothing is random: with full
/// survival every `(A,A)` genotype passes through, and with zero survival
/// none does.
pub fn select_survivors(genes: &Vec<(Allele, Allele)>, survival_percent: u32) -> (pool: Vec<
    Allele,
>)
    requires
        survival_percent <= 100,
    ensures
        count_of(pool@, Allele::S) == count_het(genes@),
        count_of(pool@, Allele::A) >= count_het(genes@),
        count_of(pool@, Allele::A) <= count_het(genes@) + 2 * count_aa(genes@),
        (count_of(pool@, Allele::A) - count_het(genes@)) % 2 == 0,
        pool@.len() == count_of(pool@, Allele::A) + count_of(pool@, Allele::S),
        pool@.len() % 2 == 0,
        pool@.len() <= 2 * genes@.len(),
        count_het(genes@) == 0 && count_aa(genes@) == 0 ==> pool@.len() == 0,
        count_het(genes@) == genes@.len() ==> pool@.len() == 2 * genes@.len(),
        survival_percent == 100 ==> count_of(pool@, Allele::A) == count_het(genes@) + 2 * count_aa(
            genes@,
        ),
        survival_percent == 0 ==> count_of(pool@, Allele::A) == count_het(genes@),
{
    let mut pool: Vec<Allele> = Vec::new();
    let mut i: usize = 0;
    while i < genes.len()
        invariant
            i <= genes@.len(),
            survival_percent <= 100,
            count_of(pool@, Allele::S) == count_het(genes@.take(i as int)),
            count_of(pool@, Allele::A) >= count_het(genes@.take(i as int)),
            count_of(pool@, Allele::A) <= count_het(genes@.take(i as int)) + 2 * count_aa(
                genes@.take(i as int),
            ),
            (count_of(pool@, Allele::A) - count_het(genes@.take(i as int))) % 2 == 0,
            pool@.len() == count_of(pool@, Allele::A) + count_of(pool@, Allele::S),
            survival_percent == 100 ==> count_of(pool@, Allele::A) == count_het(
                genes@.take(i as int),
            ) + 2 * count_aa(genes@.take(i as int)),
            survival_percent == 0 ==> count_of(pool@, Allele::A) == count_het(
                genes@.take(i as int),
            ),
        decreases genes@.len() - i,
    {
        let g = genes[i];
        proof {
            lemma_genotype_take_succ(genes@, i as int);
        }
        match g {
            (Allele::A, Allele::A) => {
                if random_percent() < survival_percent {
                    proof {
                        lemma_count_push(pool@, Allele::A, Allele::A);
                        lemma_count_push(pool@, Allele::A, Allele::S);
                        lemma_count_push(pool@.push(Allele::A), Allele::A, Allele::A);
                        lemma_count_push(pool@.push(Allele::A), Allele::A, Allele::S);
                    }
                    pool.push(Allele::A);
                    pool.push(Allele::A);
                }
            },
            (Allele::S, Allele::S) => {},
            _ => {
                proof {
                    lemma_count_push(pool@, g.0, Allele::A);
                    lemma_count_push(pool@, g.0, Allele::S);
                    lemma_count_push(pool@.push(g.0), g.1, Allele::A);
                    lemma_count_push(pool@.push(g.0), g.1, Allele::S);
                    assert(g.0 is A || g.0 is S);
                    assert(g.1 is A || g.1 is S);
                }
                pool.push(g.0);
                pool.push(g.1);
            },
        }
        i = i + 1;
    }
    proof {
        assert(genes@.take(genes@.len() as int) =~= genes@);
        lemma_genotype_kinds_partition(genes@);
    }
    pool
}

/// One generation step on a full-size pool: pair the pool into genotypes at
/// random, then apply the survival policy. The surviving pool is even in
/// length and never larger than the input pool; no allele kind can grow,
/// and a pool with no `A` alleles (all genotypes `(S,S)`) leaves no
/// survivors at all. Surviving `S` alleles come only from heterozygotes,
/// matched one-for-one by an `A`, so they never outnumber the surviving
/// `A`s; an odd `A` count forces at least one heterozygote into the
/// pairing, so some individual always survives. With full homozygote
/// survival the `A` count is preserved exactly (selection removes only
/// `(S,S)` pairs), and with zero homozygote survival only heterozygotes
/// remain.
pub fn run_generation(alleles: Vec<Allele>, survival_percent: u32) -> (survivors: Vec<Allele>)
    requires
        alleles@.len() == TOTAL_ALLELES as int,
        survival_percent <= 100,
    ensures
        survivors@.len() % 2 == 0,
        survivors@.len() <= alleles@.len(),
        survivors@.len() == count_of(survivors@, Allele::A) + count_of(survivors@, Allele::S),
        count_of(survivors@, Allele::A) <= count_of(alleles@, Allele::A),
        count_of(survivors@, Allele::S) <= count_of(alleles@, Allele::S),
        count_of(alleles@, Allele::A) == 0 ==> survivors@.len() == 0,
        count_of(survivors@, Allele::S) <= count_of(survivors@, Allele::A),
        count_of(alleles@, Allele::A) % 2 == 1 ==> count_of(survivors@, Allele::S) >= 1
            && survivors@.len() > 0,
        survival_percent == 100 ==> count_of(survivors@, Allele::A) == count_of(
            alleles@,
            Allele::A,
        ),
        survival_percent == 0 ==> count_of(survivors@, Allele::A) == count_of(
            survivors@,
            Allele::S,
        ),
{
    let ghost pool0 = alleles@;
    let genes = get_genes(alleles);
    let survivors = select_survivors(&genes, survival_percent);
    proof {
        lemma_genotype_allele_counts(genes@);
        lemma_count_total(pool0);
    }
    survivors
}

} // verus!
