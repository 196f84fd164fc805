use vstd::prelude::*;

verus! {

/// One of the two variant forms of the gene at the modelled locus:
/// the normal allele `A` or the sickle-cell allele `S`.
#[derive(Clone, Copy, Debug, PartialEq, Eq, Structural)]
pub enum Allele {
    A,
    S,
}

/// Size of every generation's gamete pool. The model holds the pool size
/// constant across the whole simulation; it is even, so the pool can always
/// be paired into genotypes.
pub const TOTAL_ALLELES: i32 = 100;

/// Number of occurrences of allele `x` in the sequence `s`.
pub open spec fn count_of(s: Seq<Allele>, x: Allele) -> nat
    decreases s.len(),
{
    if s.len() == 0 {
        0
    } else {
        count_of(s.drop_last(), x) + (if s.last() == x {
            1nat
        } else {
            0nat
        })
    }
}

pub proof fn lemma_count_push(s: Seq<Allele>, y: Allele, x: Allele)
    ensures
        count_of(s.push(y), x) == count_of(s, x) + (if y == x {
            1nat
        } else {
            0nat
        }),
{
    assert(s.push(y).drop_last() =~= s);
}

pub proof fn lemma_count_le_len(s: Seq<Allele>, x: Allele)
    ensures
        count_of(s, x) <= s.len(),
    decreases s.len(),
{
    if s.len() > 0 {
        lemma_count_le_len(s.drop_last(), x);
    }
}

/// Every allele is either `A` or `S`, so the two counts partition the pool.
pub proof fn lemma_count_total(s: Seq<Allele>)
    ensures
        count_of(s, Allele::A) + count_of(s, Allele::S) == s.len(),
    decreases s.len(),
{
    if s.len() > 0 {
        lemma_count_total(s.drop_last());
        assert(s.last() is A || s.last() is S);
    }
}

pub proof fn lemma_count_take_succ(s: Seq<Allele>, i: int, x: Allele)
    requires
        0 <= i < s.len(),
    ensures
        count_of(s.take(i + 1), x) == count_of(s.take(i), x) + (if s[i] == x {
            1nat
        } else {
            0nat
        }),
{
    assert(s.take(i + 1).drop_last() =~= s.take(i));
    assert(s.take(i + 1).last() == s[i]);
}

/// `count_of` agrees with the count of the sequence's multiset, so pools
/// related by reordering have the same allele counts.
pub proof fn lemma_count_of_to_multiset(s: Seq<Allele>, x: Allele)
    ensures
        count_of(s, x) == s.to_multiset().count(x),
    decreases s.len(),
{
    broadcast use vstd::seq_lib::group_to_multiset_ensures;

    if s.len() == 0 {
        assert(!s.contains(x));
        assert(s.to_multiset().count(x) == 0);
    } else {
        lemma_count_of_to_multiset(s.drop_last(), x);
        assert(s =~= s.drop_last().push(s.last()));
        assert(s.drop_last().push(s.last()).to_multiset() =~= s.drop_last().to_multiset().insert(
            s.last(),
        ));
    }
}

/// Count the occurrences of `x` in the pool `v`.
pub fn count_allele(v: &Vec<Allele>, x: Allele) -> (c: usize)
    ensures
        c == count_of(v@, x),
        c <= v@.len(),
{
    let mut c: usize = 0;
    let mut i: usize = 0;
    while i < v.len()
        invariant
            i <= v@.len(),
            c == count_of(v@.take(i as int), x),
            c <= i,
        decreases v@.len() - i,
    {
        proof {
            lemma_count_take_succ(v@, i as int, x);
        }
        if v[i] == x {
            c = c + 1;
        }
        i = i + 1;
    }
    proof {
        assert(v@.take(v@.len() as int) =~= v@);
    }
    c
}

/// Build the canonical pool for a generation whose composition is `a`
/// copies of `A` followed by `s` copies of `S`; `a + s` must be the fixed
/// pool size. Any composition that does not sum to the pool size is a
/// fatal internal-invariant violation, so it is excluded outright. The
/// layout is deterministic — `A`s first, then `S`s — and the order is
/// irrelevant downstream, since the sampler always shuffles the pool.
pub fn generate_alleles(a: i32, s: i32) -> (pool: Vec<Allele>)
    requires
        0 <= a,
        0 <= s,
        a + s == TOTAL_ALLELES,
    ensures
        pool@.len() == TOTAL_ALLELES as int,
        count_of(pool@, Allele::A) == a as int,
        count_of(pool@, Allele::S) == s as int,
        forall|k: int| 0 <= k < a ==> pool@[k] == Allele::A,
        forall|k: int| a <= k < pool@.len() ==> pool@[k] == Allele::S,
{
    let mut pool: Vec<Allele> = Vec::new();
    let mut i: i32 = 0;
    while i < a
        invariant
            0 <= i <= a,
            pool@.len() == i as int,
            count_of(pool@, Allele::A) == i as int,
            count_of(pool@, Allele::S) == 0,
            forall|k: int| 0 <= k < i ==> pool@[k] == Allele::A,
        decreases a - i,
    {
        proof {
            lemma_count_push(pool@, Allele::A, Allele::A);
            lemma_count_push(pool@, Allele::A, Allele::S);
        }
        pool.push(Allele::A);
        i = i + 1;
    }
    let mut j: i32 = 0;
    while j < s
        invariant
            0 <= j <= s,
            pool@.len() == a + j,
            count_of(pool@, Allele::A) == a as int,
            count_of(pool@, Allele::S) == j as int,
            forall|k: int| 0 <= k < a ==> pool@[k] == Allele::A,
            forall|k: int| a <= k < a + j ==> pool@[k] == Allele::S,
        decreases s - j,
    {
        proof {
            lemma_count_push(pool@, Allele::S, Allele::A);
            lemma_count_push(pool@, Allele::S, Allele::S);
        }
        pool.push(Allele::S);
        j = j + 1;
    }
    pool
}

} // verus!
