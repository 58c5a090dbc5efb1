use vstd::prelude::*;

use crate::database::Database;
use crate::fetcher::{apply_detail_page, is_secret, spec_detail_stats};
use crate::utils::{Character, Stats};

verus! {

/// Whether two summaries agree on everything but the stat block.
pub open spec fn spec_same_summary(a: Character, b: Character) -> bool {
    &&& a.number == b.number
    &&& a.name == b.name
    &&& a.nickname == b.nickname
    &&& a.element == b.element
    &&& a.position == b.position
    &&& a.page_url == b.page_url
}

/// Whether the detail phase must fetch `c`'s detail page: only on a
/// cache miss, and never for the unpublished sentinel (empty name).
pub open spec fn spec_needs_fetch(c: Character, cached: Option<Stats>) -> bool {
    cached is None && c.name@.len() > 0
}

/// The stat block one item ends the detail phase with: the cached block
/// on a hit; otherwise whatever the fetched page's stat cells read as
/// (`texts` is `None` when no fetch was made, the fetch failed, or the
/// page had no stats block); the sentinel is never fetched and stays
/// bare.
pub open spec fn spec_resolved_stats(
    c: Character,
    cached: Option<Stats>,
    texts: Option<Seq<Seq<char>>>,
) -> Option<Stats> {
    if cached is Some {
        cached
    } else if c.name@.len() == 0 {
        None
    } else {
        match texts {
            Option::None => None,
            Option::Some(t) => spec_detail_stats(t),
        }
    }
}

/// Whether the detail phase writes `c`'s record through to the cache:
/// exactly when a fetch was needed and yielded a full stat block. An
/// item without stats is never cached, so a later run retries it.
pub open spec fn spec_wrote(
    c: Character,
    cached: Option<Stats>,
    texts: Option<Seq<Seq<char>>>,
) -> bool {
    spec_needs_fetch(c, cached) && (match texts {
        Option::None => false,
        Option::Some(t) => spec_detail_stats(t) is Some,
    })
}

/// Every attached stat block has exactly one source: it came from a
/// cache hit (no fetch was needed and nothing was written), or from a
/// successful detail fetch followed by exactly one cache write.
pub proof fn lemma_stats_have_one_source(
    c: Character,
    cached: Option<Stats>,
    texts: Option<Seq<Seq<char>>>,
)
    ensures
        spec_resolved_stats(c, cached, texts) is Some ==> {
            ||| (cached is Some && !spec_needs_fetch(c, cached) && !spec_wrote(c, cached, texts)
                && spec_resolved_stats(c, cached, texts) == cached)
            ||| (spec_needs_fetch(c, cached) && texts is Some && spec_detail_stats(texts->0)
                is Some && spec_wrote(c, cached, texts))
        },
{
}

/// A second run against an unchanged source and a warm cache is all
/// hits: once the cache holds what the cold run resolved for an item,
/// the item needs no fetch, resolves to the same stat block whatever a
/// fetch would have yielded, and writes nothing.
pub proof fn lemma_warm_cache_second_run(c: Character, texts: Option<Seq<Seq<char>>>)
    requires
        spec_resolved_stats(c, None::<Stats>, texts) is Some,
    ensures
        ({
            let s = spec_resolved_stats(c, None::<Stats>, texts);
            &&& !spec_needs_fetch(c, s)
            &&& forall|t2: Option<Seq<Seq<char>>>| spec_resolved_stats(c, s, t2) == s
            &&& forall|t2: Option<Seq<Seq<char>>>| !spec_wrote(c, s, t2)
        }),
{
}

/// Batch form of the warm-cache law: when a cold run (empty cache)
/// resolved a full record for every item of a batch, a second run
/// against the warmed cache and an unchanged source fetches no detail
/// page, writes nothing, and resolves every item to the same stat
/// block.
pub proof fn lemma_second_run_is_all_hits(
    items: Seq<Character>,
    texts: Seq<Option<Seq<Seq<char>>>>,
)
    requires
        items.len() == texts.len(),
        forall|i: int|
            0 <= i < items.len() ==> spec_resolved_stats(#[trigger] items[i], None::<Stats>, texts[i])
                is Some,
    ensures
        forall|i: int|
            0 <= i < items.len() ==> !spec_needs_fetch(
                #[trigger] items[i],
                spec_resolved_stats(items[i], None::<Stats>, texts[i]),
            ),
        forall|i: int, t2: Option<Seq<Seq<char>>>|
            0 <= i < items.len() ==> #[trigger] spec_resolved_stats(
                items[i],
                spec_resolved_stats(items[i], None::<Stats>, texts[i]),
                t2,
            ) == spec_resolved_stats(items[i], None::<Stats>, texts[i]),
        forall|i: int, t2: Option<Seq<Seq<char>>>|
            0 <= i < items.len() ==> !(#[trigger] spec_wrote(
                items[i],
                spec_resolved_stats(items[i], None::<Stats>, texts[i]),
                t2,
            )),
{
    assert forall|i: int| 0 <= i < items.len() implies !spec_needs_fetch(
        #[trigger] items[i],
        spec_resolved_stats(items[i], None::<Stats>, texts[i]),
    ) by {
        lemma_warm_cache_second_run(items[i], texts[i]);
    }
    assert forall|i: int, t2: Option<Seq<Seq<char>>>| 0 <= i < items.len() implies #[trigger] spec_resolved_stats(
        items[i],
        spec_resolved_stats(items[i], None::<Stats>, texts[i]),
        t2,
    ) == spec_resolved_stats(items[i], None::<Stats>, texts[i]) by {
        lemma_warm_cache_second_run(items[i], texts[i]);
    }
    assert forall|i: int, t2: Option<Seq<Seq<char>>>| 0 <= i < items.len() implies !(
    #[trigger] spec_wrote(
        items[i],
        spec_resolved_stats(items[i], None::<Stats>, texts[i]),
        t2,
    )) by {
        lemma_warm_cache_second_run(items[i], texts[i]);
    }
}

/// Applies a cache lookup's outcome to one summary: a hit attaches the
/// cached stat block, a miss leaves the summary untouched.
pub fn cache_step(c: &mut Character, cached: Option<Stats>) -> (hit: bool)
    ensures
        hit == (cached is Some),
        final(c).stats == (if cached is Some {
            cached
        } else {
            old(c).stats
        }),
        spec_same_summary(*final(c), *old(c)),
        cached is None ==> *final(c) == *old(c),
{
    match cached {
        Option::Some(s) => {
            c.stats = Some(s);
            true
        },
        Option::None => false,
    }
}

/// Applies a detail fetch's outcome to one missed summary: attaches the
/// stat block its stat cells read as, if any, and says whether the
/// completed record is to be written through.
pub fn fetch_step(c: &mut Character, stat_texts: &Option<Vec<String>>) -> (store: bool)
    requires
        old(c).stats is None,
    ensures
        final(c).stats == (match *stat_texts {
            Option::None => None::<Stats>,
            Option::Some(t) => spec_detail_stats(t.deep_view()),
        }),
        store == (final(c).stats is Some),
        spec_same_summary(*final(c), *old(c)),
{
    apply_detail_page(c, stat_texts);
    c.stats.is_some()
}

/// Starts the detail phase for one freshly listed summary: serves it
/// from the cache when its record is there, and says whether its detail
/// page must be fetched — that is, on a miss, unless the summary is the
/// unpublished sentinel.
pub fn begin_item(db: &Database, c: &mut Character) -> (needs_fetch: bool)
    requires
        old(c).stats is None,
    ensures
        spec_same_summary(*final(c), *old(c)),
        needs_fetch ==> *final(c) == *old(c) && final(c).stats is None,
        !needs_fetch ==> (final(c).stats is Some || final(c).name@.len() == 0),
{
    let hit = db.populate_character_data(c);
    if hit {
        false
    } else {
        !is_secret(c)
    }
}

/// Finishes one fetched item: attaches whatever the detail page
/// yielded, and writes the record through to the cache exactly when a
/// full stat block came back. A failed or empty page leaves the item
/// bare and uncached; the item is returned either way.
pub fn finish_item(db: &Database, c: &mut Character, stat_texts: &Option<Vec<String>>) -> (stored:
    bool)
    requires
        old(c).stats is None,
    ensures
        final(c).stats == (match *stat_texts {
            Option::None => None::<Stats>,
            Option::Some(t) => spec_detail_stats(t.deep_view()),
        }),
        stored == (final(c).stats is Some),
        spec_same_summary(*final(c), *old(c)),
{
    let store = fetch_step(c, stat_texts);
    if store {
        let _ = db.store_character(c);
        true
    } else {
        false
    }
}

/// The fully enriched records of a batch, in order.
pub open spec fn spec_complete_only(s: Seq<Character>) -> Seq<Character>
    decreases s.len(),
{
    if s.len() == 0 {
        Seq::empty()
    } else {
        spec_complete_only(s.drop_last()) + (if s.last().stats is Some {
            seq![s.last()]
        } else {
            Seq::<Character>::empty()
        })
    }
}

/// Keeps only the fully enriched records, in order. This is a caller's
/// presentation policy: the raw batch, incomplete items included, stays
/// obtainable upstream.
pub fn filter_complete(characters: Vec<Character>) -> (r: Vec<Character>)
    ensures
        r@ == spec_complete_only(characters@),
{
    let ghost chars0 = characters@;
    let mut characters = characters;
    let mut out: Vec<Character> = Vec::new();
    let ghost mut i: int = 0;
    #[verifier::loop_isolation(false)]
    while characters.len() > 0
        invariant
            0 <= i <= chars0.len(),
            characters@ =~= chars0.subrange(i, chars0.len() as int),
            out@ =~= spec_complete_only(chars0.subrange(0, i)),
        decreases characters@.len(),
    {
        let c = characters.remove(0);
        proof {
            assert(c == chars0[i]);
            assert(characters@ =~= chars0.subrange(i + 1, chars0.len() as int));
            assert(chars0.subrange(0, i + 1).drop_last() =~= chars0.subrange(0, i));
            assert(chars0.subrange(0, i + 1).last() == chars0[i]);
        }
        if c.stats.is_some() {
            out.push(c);
        }
        proof {
            i = i + 1;
        }
    }
    proof {
        assert(chars0.subrange(0, chars0.len() as int) =~= chars0);
    }
    out
}

} // verus!
