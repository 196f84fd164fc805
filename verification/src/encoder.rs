use crate::allele::Allele;
use crate::allele::TOTAL_ALLELES;
use crate::allele::count_allele;
use crate::allele::count_of;
use crate::allele::lemma_count_le_len;
use crate::allele::lemma_count_total;
use crate::rng::random_coin;
use vstd::arithmetic::div_mod::lemma_div_is_ordered;
use vstd::arithmetic::div_mod::lemma_div_multiples_vanish;
use vstd::arithmetic::div_mod::lemma_div_pos_is_pos;
use vstd::arithmetic::div_mod::lemma_fundamental_div_mod;
use vstd::arithmetic::div_mod::lemma_mod_bound;
use vstd::prelude::*;

verus! {

/// One generation's composition: integer percentages of each allele
/// (always summing to 100) and the real counts (always summing to the
/// length of the pool that was summarized).
#[derive(Clone, Copy, Debug, PartialEq, Eq, Structural)]
pub struct GenerationSummary {
    pub percent_a: i32,
    pub percent_s: i32,
    pub count_a: i32,
    pub count_s: i32,
}

/// The raw percentage of `count` in `len`, truncated toward zero.
pub open spec fn trunc_percent(count: int, len: int) -> int {
    (count * 100) / len
}

/// Count the alleles of a pool and convert the counts to integer
/// percentages. Each raw percentage is truncated toward zero; if the two
/// truncated percentages sum to 100 they are returned as they are, and
/// otherwise (the truncation discarded a fractional remainder, so the sum
/// is 99) a fair coin decides which side receives the missing point. The
/// coin is random, so the contract admits both outcomes of that path and
/// pins everything else. A pool whose counts could not be summarized
/// (an empty pool) is excluded outright.
pub fn parse_alleles(alleles: &Vec<Allele>) -> (summary: GenerationSummary)
    requires
        alleles@.len() > 0,
        100 * alleles@.len() <= i32::MAX as int,
    ensures
        summary.count_a == count_of(alleles@, Allele::A),
        summary.count_s == count_of(alleles@, Allele::S),
        summary.count_a + summary.count_s == alleles@.len(),
        summary.percent_a + summary.percent_s == 100,
        0 <= summary.percent_a <= 100,
        0 <= summary.percent_s <= 100,
        ({
            let pa = trunc_percent(count_of(alleles@, Allele::A) as int, alleles@.len() as int);
            let ps = trunc_percent(count_of(alleles@, Allele::S) as int, alleles@.len() as int);
            pa + ps == 99 || pa + ps == 100
        }),
        ({
            let pa = trunc_percent(count_of(alleles@, Allele::A) as int, alleles@.len() as int);
            let ps = trunc_percent(count_of(alleles@, Allele::S) as int, alleles@.len() as int);
            if pa + ps == 100 {
                summary.percent_a == pa && summary.percent_s == ps
            } else {
                (summary.percent_a == pa + 1 && summary.percent_s == ps) || (summary.percent_a == pa
                    && summary.percent_s == ps + 1)
            }
        }),
{
    let len = alleles.len();
    let real_a = count_allele(alleles, Allele::A) as i32;
    let real_s = count_allele(alleles, Allele::S) as i32;
    proof {
        lemma_count_total(alleles@);
        lemma_count_le_len(alleles@, Allele::A);
        lemma_count_le_len(alleles@, Allele::S);
        lemma_div_pos_is_pos(real_a * 100, len as int);
        lemma_div_pos_is_pos(real_s * 100, len as int);
        lemma_div_is_ordered(real_a * 100, len as int * 100, len as int);
        lemma_div_is_ordered(real_s * 100, len as int * 100, len as int);
        lemma_div_multiples_vanish(100, len as int);
    }
    let new_a = (real_a * 100) / (len as i32);
    let new_s = (real_s * 100) / (len as i32);
    proof {
        let l = len as int;
        let pa = (real_a as int * 100) / l;
        let ps = (real_s as int * 100) / l;
        let ra = (real_a as int * 100) % l;
        let rs = (real_s as int * 100) % l;
        lemma_fundamental_div_mod(real_a as int * 100, l);
        lemma_fundamental_div_mod(real_s as int * 100, l);
        lemma_mod_bound(real_a as int * 100, l);
        lemma_mod_bound(real_s as int * 100, l);
        assert(pa + ps == 99 || pa + ps == 100) by (nonlinear_arith)
            requires
                l > 0,
                real_a as int * 100 == l * pa + ra,
                real_s as int * 100 == l * ps + rs,
                0 <= ra < l,
                0 <= rs < l,
                real_a as int + real_s as int == l,
        ;
    }
    if new_a + new_s == 100 {
        GenerationSummary { percent_a: new_a, percent_s: new_s, count_a: real_a, count_s: real_s }
    } else {
        if random_coin() {
            GenerationSummary {
                percent_a: new_a + 1,
                percent_s: new_s,
                count_a: real_a,
                count_s: real_s,
            }
        } else {
            GenerationSummary {
                percent_a: new_a,
                percent_s: new_s + 1,
                count_a: real_a,
                count_s: real_s,
            }
        }
    }
}

/// Round-trip law: a composition `(pa, ps)` that sums to the full pool
/// size is recovered exactly when a pool regenerated from it is summarized
/// again — its truncated percentages are `pa` and `ps` themselves and sum
/// to 100, so the tie-break path never fires on a regenerated pool.
pub proof fn lemma_regenerate_round_trip(pa: int, ps: int)
    requires
        0 <= pa,
        0 <= ps,
        pa + ps == TOTAL_ALLELES as int,
    ensures
        trunc_percent(pa, TOTAL_ALLELES as int) == pa,
        trunc_percent(ps, TOTAL_ALLELES as int) == ps,
        trunc_percent(pa, TOTAL_ALLELES as int) + trunc_percent(ps, TOTAL_ALLELES as int) == 100,
{
    lemma_div_multiples_vanish(pa, 100);
    lemma_div_multiples_vanish(ps, 100);
}

/// The decimal digit `d` (0 to 9) as a character.
pub open spec fn digit_char(d: int) -> char {
    if d == 0 {
        '0'
    } else if d == 1 {
        '1'
    } else if d == 2 {
        '2'
    } else if d == 3 {
        '3'
    } else if d == 4 {
        '4'
    } else if d == 5 {
        '5'
    } else if d == 6 {
        '6'
    } else if d == 7 {
        '7'
    } else if d == 8 {
        '8'
    } else {
        '9'
    }
}

/// The decimal digits of a non-negative integer, most significant first
/// and without leading zeroes (a lone `'0'` for zero).
pub open spec fn decimal_digits(n: int) -> Seq<char>
    recommends
        0 <= n,
    decreases n,
{
    if n < 10 {
        seq![digit_char(n)]
    } else {
        decimal_digits(n / 10).push(digit_char(n % 10))
    }
}

/// The decimal rendering of an integer: its digits, behind a minus sign
/// when it is negative.
pub open spec fn decimal_rep(n: int) -> Seq<char> {
    if n < 0 {
        seq!['-'] + decimal_digits(-n)
    } else {
        decimal_digits(n)
    }
}

/// The text of one rendered summary line,
/// `"A: {count_a} ({percent_a}%), S: {count_s} ({percent_s}%)"`.
pub open spec fn summary_line(percent_a: int, percent_s: int, count_a: int, count_s: int) -> Seq<
    char,
> {
    "A: "@ + decimal_rep(count_a) + " ("@ + decimal_rep(percent_a) + "%), S: "@ + decimal_rep(
        count_s,
    ) + " ("@ + decimal_rep(percent_s) + "%)"@
}

/// Render a summary tuple `(percent_a, percent_s, count_a, count_s)` as
/// the report line that `summary_line` states.
///
/// Relies on std's `format!` with the `Display` rendering of `i32`:
/// decimal digits without leading zeroes or padding, behind a minus sign
/// for a negative value.
#[verifier::external_body]
pub fn parsed_to_string(parsed: (i32, i32, i32, i32)) -> (line: String)
    ensures
        line@ == summary_line(parsed.0 as int, parsed.1 as int, parsed.2 as int, parsed.3 as int),
{
    format!("A: {} ({}%), S: {} ({}%)", parsed.2, parsed.0, parsed.3, parsed.1)
}

} // verus!
