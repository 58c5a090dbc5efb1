use vstd::prelude::*;
use vstd::multiset::Multiset;
use vstd::seq_lib::group_to_multiset_ensures;

use crate::utils::{Character, SortColumn};

verus! {

broadcast use group_to_multiset_ensures;

/// Lexicographic order on character sequences, by code point.
pub open spec fn spec_lex_le(a: Seq<char>, b: Seq<char>) -> bool
    decreases a.len(),
{
    if a.len() == 0 {
        true
    } else if b.len() == 0 {
        false
    } else if a.first() < b.first() {
        true
    } else if b.first() < a.first() {
        false
    } else {
        spec_lex_le(a.drop_first(), b.drop_first())
    }
}

proof fn lemma_lex_total(a: Seq<char>, b: Seq<char>)
    ensures
        spec_lex_le(a, b) || spec_lex_le(b, a),
    decreases a.len(),
{
    if a.len() > 0 && b.len() > 0 && a.first() == b.first() {
        lemma_lex_total(a.drop_first(), b.drop_first());
    }
}

proof fn lemma_lex_trans(a: Seq<char>, b: Seq<char>, c: Seq<char>)
    requires
        spec_lex_le(a, b),
        spec_lex_le(b, c),
    ensures
        spec_lex_le(a, c),
    decreases a.len(),
{
    if a.len() > 0 && b.len() > 0 && c.len() > 0 && a.first() == b.first() && b.first()
        == c.first() {
        lemma_lex_trans(a.drop_first(), b.drop_first(), c.drop_first());
    }
}

/// Ascending order of two records under one display column.
pub open spec fn spec_col_le(a: Character, b: Character, column: SortColumn) -> bool {
    match column {
        SortColumn::ID => a.number <= b.number,
        SortColumn::Name => spec_lex_le(a.name@, b.name@),
        SortColumn::Kick => a.stats->Some_0.kick <= b.stats->Some_0.kick,
        SortColumn::Control => a.stats->Some_0.control <= b.stats->Some_0.control,
        SortColumn::Technique => a.stats->Some_0.technique <= b.stats->Some_0.technique,
        SortColumn::Pressure => a.stats->Some_0.pressure <= b.stats->Some_0.pressure,
        SortColumn::Physical => a.stats->Some_0.physical <= b.stats->Some_0.physical,
        SortColumn::Agility => a.stats->Some_0.agility <= b.stats->Some_0.agility,
        SortColumn::Intelligence => a.stats->Some_0.intelligence <= b.stats->Some_0.intelligence,
    }
}

/// The order the table shows: the column's order, or its reverse.
pub open spec fn spec_ord_le(a: Character, b: Character, column: SortColumn, ascending: bool) -> bool {
    if ascending {
        spec_col_le(a, b, column)
    } else {
        spec_col_le(b, a, column)
    }
}

proof fn lemma_ord_total(a: Character, b: Character, column: SortColumn, ascending: bool)
    ensures
        spec_ord_le(a, b, column, ascending) || spec_ord_le(b, a, column, ascending),
{
    if column is Name {
        lemma_lex_total(a.name@, b.name@);
    }
}

proof fn lemma_ord_trans(
    a: Character,
    b: Character,
    c: Character,
    column: SortColumn,
    ascending: bool,
)
    requires
        spec_ord_le(a, b, column, ascending),
        spec_ord_le(b, c, column, ascending),
    ensures
        spec_ord_le(a, c, column, ascending),
{
    if column is Name {
        if ascending {
            lemma_lex_trans(a.name@, b.name@, c.name@);
        } else {
            lemma_lex_trans(c.name@, b.name@, a.name@);
        }
    }
}

/// Compares two names lexicographically, by code point.
fn lex_le(a: &str, b: &str) -> (r: bool)
    ensures
        r == spec_lex_le(a@, b@),
{
    let an = a.unicode_len();
    let bn = b.unicode_len();
    let mut i: usize = 0;
    proof {
        assert(a@.skip(0) =~= a@);
        assert(b@.skip(0) =~= b@);
    }
    #[verifier::loop_isolation(false)]
    while i < an && i < bn
        invariant
            i <= an,
            i <= bn,
            spec_lex_le(a@, b@) == spec_lex_le(a@.skip(i as int), b@.skip(i as int)),
        decreases an - i,
    {
        let ca = a.get_char(i);
        let cb = b.get_char(i);
        proof {
            let sa = a@.skip(i as int);
            let sb = b@.skip(i as int);
            assert(sa.first() == a@[i as int]);
            assert(sb.first() == b@[i as int]);
            assert(sa.drop_first() =~= a@.skip(i as int + 1));
            assert(sb.drop_first() =~= b@.skip(i as int + 1));
        }
        if (ca as u32) < (cb as u32) {
            return true;
        }
        if (cb as u32) < (ca as u32) {
            return false;
        }
        i = i + 1;
    }
    proof {
        if i >= an {
            assert(a@.skip(i as int).len() == 0);
        } else {
            assert(b@.skip(i as int).len() == 0);
            assert(a@.skip(i as int).len() > 0);
        }
    }
    i >= an
}

/// Compares two enriched records under one display column, ascending.
fn col_le(a: &Character, b: &Character, column: SortColumn) -> (r: bool)
    requires
        a.stats is Some,
        b.stats is Some,
    ensures
        r == spec_col_le(*a, *b, column),
{
    let a_stats = a.stats.unwrap();
    let b_stats = b.stats.unwrap();
    match column {
        SortColumn::ID => a.number <= b.number,
        SortColumn::Name => lex_le(a.name.as_str(), b.name.as_str()),
        SortColumn::Kick => a_stats.kick <= b_stats.kick,
        SortColumn::Control => a_stats.control <= b_stats.control,
        SortColumn::Technique => a_stats.technique <= b_stats.technique,
        SortColumn::Pressure => a_stats.pressure <= b_stats.pressure,
        SortColumn::Physical => a_stats.physical <= b_stats.physical,
        SortColumn::Agility => a_stats.agility <= b_stats.agility,
        SortColumn::Intelligence => a_stats.intelligence <= b_stats.intelligence,
    }
}

fn ord_le(a: &Character, b: &Character, column: SortColumn, ascending: bool) -> (r: bool)
    requires
        a.stats is Some,
        b.stats is Some,
    ensures
        r == spec_ord_le(*a, *b, column, ascending),
{
    if ascending {
        col_le(a, b, column)
    } else {
        col_le(b, a, column)
    }
}

/// Sorts enriched records for display: afterwards the batch holds the
/// same records (as a multiset) and stands in the chosen column's
/// order, reversed when descending. Every record must carry stats, and
/// keeps them.
pub fn sort_characters(characters: &mut Vec<Character>, column: SortColumn, ascending: bool)
    requires
        forall|i: int|
            0 <= i < old(characters)@.len() ==> (#[trigger] old(characters)@[i]).stats is Some,
    ensures
        final(characters)@.to_multiset() == old(characters)@.to_multiset(),
        final(characters)@.len() == old(characters)@.len(),
        forall|i: int, j: int|
            0 <= i < j < final(characters)@.len() ==> spec_ord_le(
                #[trigger] final(characters)@[i],
                #[trigger] final(characters)@[j],
                column,
                ascending,
            ),
        forall|i: int|
            0 <= i < final(characters)@.len() ==> (#[trigger] final(characters)@[i]).stats
                is Some,
{
    let ghost orig = characters@;
    let mut out: Vec<Character> = Vec::new();
    #[verifier::loop_isolation(false)]
    while characters.len() > 0
        invariant
            out@.to_multiset().add(characters@.to_multiset()) =~= orig.to_multiset(),
            out@.len() + characters@.len() == orig.len(),
            forall|i: int| 0 <= i < out@.len() ==> (#[trigger] out@[i]).stats is Some,
            forall|i: int|
                0 <= i < characters@.len() ==> (#[trigger] characters@[i]).stats is Some,
            forall|i: int, j: int|
                0 <= i < j < out@.len() ==> spec_ord_le(
                    #[trigger] out@[i],
                    #[trigger] out@[j],
                    column,
                    ascending,
                ),
            forall|i: int, j: int|
                0 <= i < out@.len() && 0 <= j < characters@.len() ==> spec_ord_le(
                    #[trigger] out@[i],
                    #[trigger] characters@[j],
                    column,
                    ascending,
                ),
        decreases characters@.len(),
    {
        let mut m: usize = 0;
        let mut k: usize = 1;
        proof {
            lemma_ord_total(characters@[0], characters@[0], column, ascending);
        }
        #[verifier::loop_isolation(false)]
        while k < characters.len()
            invariant
                0 <= m < k <= characters@.len(),
                forall|t: int|
                    0 <= t < k ==> spec_ord_le(
                        characters@[m as int],
                        #[trigger] characters@[t],
                        column,
                        ascending,
                    ),
            decreases characters@.len() - k,
        {
            if !ord_le(&characters[m], &characters[k], column, ascending) {
                proof {
                    lemma_ord_total(
                        characters@[m as int],
                        characters@[k as int],
                        column,
                        ascending,
                    );
                    assert forall|t: int| 0 <= t < k + 1 implies spec_ord_le(
                        characters@[k as int],
                        #[trigger] characters@[t],
                        column,
                        ascending,
                    ) by {
                        if t < k {
                            lemma_ord_trans(
                                characters@[k as int],
                                characters@[m as int],
                                characters@[t],
                                column,
                                ascending,
                            );
                        } else {
                            lemma_ord_total(
                                characters@[k as int],
                                characters@[k as int],
                                column,
                                ascending,
                            );
                        }
                    }
                }
                m = k;
            } else {
                proof {
                    assert(spec_ord_le(
                        characters@[m as int],
                        characters@[k as int],
                        column,
                        ascending,
                    ));
                }
            }
            k = k + 1;
        }
        let ghost pre = characters@;
        let x = characters.remove(m);
        proof {
            assert(x == pre[m as int]);
            assert forall|j: int| 0 <= j < characters@.len() implies spec_ord_le(
                x,
                #[trigger] characters@[j],
                column,
                ascending,
            ) && characters@[j].stats is Some by {
                if j < m {
                    assert(characters@[j] == pre[j]);
                } else {
                    assert(characters@[j] == pre[j + 1]);
                }
            }
        }
        out.push(x);
    }
    proof {
        assert(characters@.to_multiset() =~= Multiset::<Character>::empty());
        assert(out@.to_multiset() =~= orig.to_multiset());
    }
    *characters = out;
}

} // verus!
