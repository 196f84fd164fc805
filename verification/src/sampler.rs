use crate::allele::Allele;
use crate::allele::count_of;
use crate::allele::lemma_count_of_to_multiset;
use crate::rng::shuffle_alleles;
use vstd::prelude::*;

verus! {

/// The sequence of alleles carried by a sequence of genotypes: each
/// genotype contributes its two alleles, in order.
pub open spec fn genotypes_alleles(gs: Seq<(Allele, Allele)>) -> Seq<Allele>
    decreases gs.len(),
{
    if gs.len() == 0 {
        Seq::empty()
    } else {
        genotypes_alleles(gs.drop_last()).push(gs.last().0).push(gs.last().1)
    }
}

pub proof fn lemma_genotypes_alleles_push(gs: Seq<(Allele, Allele)>, g: (Allele, Allele))
    ensures
        genotypes_alleles(gs.push(g)) == genotypes_alleles(gs).push(g.0).push(g.1),
{
    assert(gs.push(g).drop_last() =~= gs);
}

/// Randomly partition a pool of even length into unordered genotype pairs:
/// the pool is uniformly shuffled and consecutive elements are paired. A
/// pool of odd length is a fatal internal-invariant violation, so it is
/// excluded outright. Every allele of the pool is used in exactly one
/// genotype: the genotypes carry the same multiset of alleles as the pool,
/// and in particular the same count of each allele.
pub fn get_genes(alleles: Vec<Allele>) -> (genes: Vec<(Allele, Allele)>)
    requires
        alleles@.len() % 2 == 0,
    ensures
        genes@.len() == alleles@.len() / 2,
        genotypes_alleles(genes@).to_multiset() == alleles@.to_multiset(),
        count_of(genotypes_alleles(genes@), Allele::A) == count_of(alleles@, Allele::A),
        count_of(genotypes_alleles(genes@), Allele::S) == count_of(alleles@, Allele::S),
{
    let mut pool = alleles;
    shuffle_alleles(&mut pool);
    let ghost shuffled = pool@;
    let mut genes: Vec<(Allele, Allele)> = Vec::new();
    let mut i: usize = 0;
    while i < pool.len() / 2
        invariant
            pool@ == shuffled,
            2 * i <= pool@.len(),
            pool@.len() % 2 == 0,
            genes@.len() == i as int,
            genotypes_alleles(genes@) == pool@.take(2 * i as int),
        decreases pool@.len() - i,
    {
        let g = (pool[2 * i], pool[2 * i + 1]);
        proof {
            lemma_genotypes_alleles_push(genes@, (pool@[2 * i as int], pool@[2 * i as int + 1]));
            assert(pool@.take(2 * i as int).push(pool@[2 * i as int]).push(
                pool@[2 * i as int + 1],
            ) =~= pool@.take(2 * (i + 1) as int));
        }
        genes.push(g);
        i = i + 1;
    }
    proof {
        assert(2 * i as int == pool@.len());
        assert(pool@.take(pool@.len() as int) =~= pool@);
        lemma_count_of_to_multiset(genotypes_alleles(genes@), Allele::A);
        lemma_count_of_to_multiset(alleles@, Allele::A);
        lemma_count_of_to_multiset(genotypes_alleles(genes@), Allele::S);
        lemma_count_of_to_multiset(alleles@, Allele::S);
    }
    genes
}

} // verus!
