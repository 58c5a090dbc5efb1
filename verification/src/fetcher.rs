use vstd::prelude::*;
use vstd::string::*;

use crate::errors::ScrapeError;
use crate::utils::{BASE_URL, Character, Element, Position, Stats};

verus! {

// ---------------------------------------------------------------------
// Decimal parsing
// ---------------------------------------------------------------------
/// Whether `c` is a decimal digit.
pub open spec fn spec_is_digit(c: char) -> bool {
    '0' <= c && c <= '9'
}

/// The value of one decimal digit.
pub open spec fn spec_digit_val(c: char) -> int {
    c as int - '0' as int
}

/// Whether every character of `s` is a decimal digit.
pub open spec fn spec_all_digits(s: Seq<char>) -> bool {
    forall|i: int| 0 <= i < s.len() ==> spec_is_digit(#[trigger] s[i])
}

/// The value of `s` read as a decimal numeral.
pub open spec fn spec_dec_val(s: Seq<char>) -> int
    decreases s.len(),
{
    if s.len() == 0 {
        0
    } else {
        spec_dec_val(s.drop_last()) * 10 + spec_digit_val(s.last())
    }
}

/// Whether `s` is a decimal numeral whose value fits a `u16`.
pub open spec fn spec_valid_u16(s: Seq<char>) -> bool {
    s.len() > 0 && spec_all_digits(s) && spec_dec_val(s) <= u16::MAX
}

/// Whether `s` is a decimal numeral whose value fits a `u8`.
pub open spec fn spec_valid_u8(s: Seq<char>) -> bool {
    s.len() > 0 && spec_all_digits(s) && spec_dec_val(s) <= u8::MAX
}

proof fn lemma_dec_val_nonneg(s: Seq<char>)
    requires
        spec_all_digits(s),
    ensures
        spec_dec_val(s) >= 0,
    decreases s.len(),
{
    if s.len() > 0 {
        assert(spec_all_digits(s.drop_last())) by {
            assert forall|i: int| 0 <= i < s.drop_last().len() implies spec_is_digit(
                #[trigger] s.drop_last()[i],
            ) by {
                assert(s.drop_last()[i] == s[i]);
            }
        }
        lemma_dec_val_nonneg(s.drop_last());
    }
}

/// Reading a longer prefix of a numeral never reads a smaller value.
proof fn lemma_dec_val_prefix_le(s: Seq<char>, n: int)
    requires
        spec_all_digits(s),
        0 <= n <= s.len(),
    ensures
        spec_dec_val(s.subrange(0, n)) <= spec_dec_val(s),
    decreases s.len() - n,
{
    if n == s.len() {
        assert(s.subrange(0, n) =~= s);
    } else {
        lemma_dec_val_prefix_le(s, n + 1);
        let p = s.subrange(0, n);
        let q = s.subrange(0, n + 1);
        assert(q.drop_last() =~= p);
        assert(q.last() == s[n]);
        assert(spec_all_digits(p)) by {
            assert forall|i: int| 0 <= i < p.len() implies spec_is_digit(#[trigger] p[i]) by {
                assert(p[i] == s[i]);
            }
        }
        lemma_dec_val_nonneg(p);
        assert(spec_dec_val(q) == spec_dec_val(p) * 10 + spec_digit_val(s[n]));
        assert(spec_dec_val(p) * 10 >= spec_dec_val(p));
    }
}

/// Reads a decimal numeral into a `u16`. Succeeds exactly on non-empty,
/// all-digit inputs whose value fits.
pub fn parse_u16(s: &str) -> (r: Result<u16, ScrapeError>)
    ensures
        spec_valid_u16(s@) ==> r == Ok::<u16, ScrapeError>(spec_dec_val(s@) as u16),
        !spec_valid_u16(s@) ==> r == Err::<u16, ScrapeError>(ScrapeError::Parse),
{
    let n = s.unicode_len();
    if n == 0 {
        return Err(ScrapeError::Parse);
    }
    let mut val: u32 = 0;
    let mut i: usize = 0;
    while i < n
        invariant
            n == s@.len(),
            0 <= i <= n,
            spec_all_digits(s@.subrange(0, i as int)),
            val == spec_dec_val(s@.subrange(0, i as int)),
            val <= 0xFFFF,
        decreases n - i,
    {
        let c = s.get_char(i);
        let cu = c as u32;
        if cu < 48 || cu > 57 {
            assert(!spec_is_digit(s@[i as int]));
            return Err(ScrapeError::Parse);
        }
        let d: u32 = cu - 48;
        proof {
            let p = s@.subrange(0, i as int);
            let q = s@.subrange(0, i as int + 1);
            assert(q.drop_last() =~= p);
            assert(q.last() == s@[i as int]);
            assert(spec_digit_val(s@[i as int]) == d);
        }
        val = val * 10 + d;
        if val > 0xFFFF {
            proof {
                if spec_all_digits(s@) {
                    lemma_dec_val_prefix_le(s@, i as int + 1);
                }
            }
            return Err(ScrapeError::Parse);
        }
        i = i + 1;
    }
    proof {
        assert(s@.subrange(0, n as int) =~= s@);
    }
    Ok(val as u16)
}

/// Reads a decimal numeral into a `u8`. Succeeds exactly on non-empty,
/// all-digit inputs whose value fits.
pub fn parse_u8(s: &str) -> (r: Result<u8, ScrapeError>)
    ensures
        spec_valid_u8(s@) ==> r == Ok::<u8, ScrapeError>(spec_dec_val(s@) as u8),
        !spec_valid_u8(s@) ==> r == Err::<u8, ScrapeError>(ScrapeError::Parse),
{
    proof {
        if spec_all_digits(s@) {
            lemma_dec_val_nonneg(s@);
        }
    }
    match parse_u16(s) {
        Ok(v) => {
            if v <= 0xFF {
                Ok(v as u8)
            } else {
                Err(ScrapeError::Parse)
            }
        },
        Err(e) => Err(e),
    }
}

// ---------------------------------------------------------------------
// Listing rows
// ---------------------------------------------------------------------
/// The plain fields one listing row carries, as the markup extraction
/// hands them over.
#[derive(Debug, Clone, PartialEq)]
pub struct RawRow {
    pub name: String,
    pub nickname: String,
    pub number_text: String,
    pub element_text: String,
    pub position_text: String,
    pub page_href: String,
}

/// The element a listing cell's text names; anything unknown maps to
/// `NONE`.
pub open spec fn spec_element_of_text(s: Seq<char>) -> Element {
    if s == "Mountain"@ {
        Element::MOUNTAIN
    } else if s == "Fire"@ {
        Element::FIRE
    } else if s == "Forest"@ {
        Element::FOREST
    } else if s == "Wind"@ {
        Element::WIND
    } else {
        Element::NONE
    }
}

/// The position a listing cell's text names; anything unknown maps to
/// `NONE`.
pub open spec fn spec_position_of_text(s: Seq<char>) -> Position {
    if s == "GK"@ {
        Position::GK
    } else if s == "DF"@ {
        Position::DF
    } else if s == "MF"@ {
        Position::MF
    } else if s == "FW"@ {
        Position::FW
    } else {
        Position::NONE
    }
}

/// The absolute detail-page reference a relative link resolves to; an
/// absent link stays empty.
pub open spec fn spec_page_url(href: Seq<char>) -> Seq<char> {
    if href.len() == 0 {
        Seq::empty()
    } else {
        BASE_URL@ + href
    }
}

fn str_eq(a: &String, b: &str) -> (r: bool)
    ensures
        r == (a@ == b@),
{
    a.eq(&b.to_owned())
}

pub fn element_from_text(s: &String) -> (r: Element)
    ensures
        r == spec_element_of_text(s@),
{
    if str_eq(s, "Mountain") {
        Element::MOUNTAIN
    } else if str_eq(s, "Fire") {
        Element::FIRE
    } else if str_eq(s, "Forest") {
        Element::FOREST
    } else if str_eq(s, "Wind") {
        Element::WIND
    } else {
        Element::NONE
    }
}

pub fn position_from_text(s: &String) -> (r: Position)
    ensures
        r == spec_position_of_text(s@),
{
    if str_eq(s, "GK") {
        Position::GK
    } else if str_eq(s, "DF") {
        Position::DF
    } else if str_eq(s, "MF") {
        Position::MF
    } else if str_eq(s, "FW") {
        Position::FW
    } else {
        Position::NONE
    }
}

/// Resolves a relative detail link against the catalog's base origin.
pub fn resolve_page_url(href: &str) -> (r: String)
    ensures
        r@ == spec_page_url(href@),
{
    if href.is_empty() {
        String::new()
    } else {
        let mut url = String::from_str(BASE_URL);
        url.append(href);
        url
    }
}

/// Whether a row can become a summary: its number cell must read as a
/// `u16` identifier.
pub open spec fn spec_row_valid(row: RawRow) -> bool {
    spec_valid_u16(row.number_text@)
}

/// How a summary relates to the row it was read from.
pub open spec fn spec_matches_row(c: Character, row: RawRow) -> bool {
    &&& c.number == spec_dec_val(row.number_text@) as u16
    &&& c.name@ == row.name@
    &&& c.nickname@ == row.nickname@
    &&& c.element == spec_element_of_text(row.element_text@)
    &&& c.position == spec_position_of_text(row.position_text@)
    &&& c.stats is None
    &&& c.page_url@ == spec_page_url(row.page_href@)
}

/// Turns one listing row into a summary without a stat block.
pub fn character_from_row(row: RawRow) -> (r: Result<Character, ScrapeError>)
    ensures
        spec_row_valid(row) ==> r is Ok && spec_matches_row(r->Ok_0, row),
        !spec_row_valid(row) ==> r == Err::<Character, ScrapeError>(ScrapeError::Parse),
{
    let number = match parse_u16(row.number_text.as_str()) {
        Ok(v) => v,
        Err(e) => {
            return Err(e);
        },
    };
    let element = element_from_text(&row.element_text);
    let position = position_from_text(&row.position_text);
    let page_url = resolve_page_url(row.page_href.as_str());
    Ok(
        Character {
            number,
            name: row.name,
            nickname: row.nickname,
            element,
            position,
            stats: None,
            page_url,
        },
    )
}

/// Whether every row of a listing page is readable.
pub open spec fn spec_rows_valid(rows: Seq<RawRow>) -> bool {
    forall|i: int| 0 <= i < rows.len() ==> spec_row_valid(#[trigger] rows[i])
}

/// Reads one listing page out of its extracted rows and the text of its
/// last pagination control. Succeeds exactly when every row's number
/// cell reads as a `u16` and the pagination text reads as a `u8`; then
/// the result carries one summary per row, in row order, and the page
/// count.
pub fn parse_search_result(rows: Vec<RawRow>, last_page_text: &str) -> (r: Result<
    (Vec<Character>, u8),
    ScrapeError,
>)
    ensures
        r is Ok <==> spec_rows_valid(rows@) && spec_valid_u8(last_page_text@),
        r is Ok ==> {
            let (chars, total) = r->Ok_0;
            &&& total == spec_dec_val(last_page_text@) as u8
            &&& chars@.len() == rows@.len()
            &&& forall|i: int|
                0 <= i < rows@.len() ==> spec_matches_row(#[trigger] chars@[i], rows@[i])
        },
        r is Err ==> r == Err::<(Vec<Character>, u8), ScrapeError>(ScrapeError::Parse),
{
    let total = match parse_u8(last_page_text) {
        Ok(v) => v,
        Err(_) => {
            return Err(ScrapeError::Parse);
        },
    };
    let ghost rows0 = rows@;
    let mut rows = rows;
    let mut out: Vec<Character> = Vec::new();
    let ghost mut i: int = 0;
    #[verifier::loop_isolation(false)]
    while rows.len() > 0
        invariant
            0 <= i <= rows0.len(),
            rows@ =~= rows0.subrange(i, rows0.len() as int),
            out@.len() == i,
            forall|j: int| 0 <= j < i ==> spec_row_valid(#[trigger] rows0[j]),
            forall|j: int| 0 <= j < i ==> spec_matches_row(#[trigger] out@[j], rows0[j]),
        decreases rows@.len(),
    {
        let row = rows.remove(0);
        proof {
            assert(row == rows0[i]);
            assert(rows@ =~= rows0.subrange(i + 1, rows0.len() as int));
        }
        match character_from_row(row) {
            Ok(c) => {
                assert(spec_row_valid(rows0[i]));
                out.push(c);
            },
            Err(_) => {
                assert(!spec_row_valid(rows0[i]));
                assert(!spec_rows_valid(rows0));
                return Err(ScrapeError::Parse);
            },
        }
        proof {
            i = i + 1;
        }
    }
    assert(spec_rows_valid(rows0));
    Ok((out, total))
}

// ---------------------------------------------------------------------
// Page fan-out and collection
// ---------------------------------------------------------------------
/// The form parameters of one follow-up page request: the continuation
/// token of the first response, the page size, and the page number.
pub fn page_params(q: &str, page_text: &str) -> (r: Vec<(String, String)>)
    ensures
        r.deep_view() == seq![("q"@, q@), ("per_page"@, "200"@), ("page"@, page_text@)],
{
    let mut params: Vec<(String, String)> = Vec::new();
    params.push((String::from_str("q"), String::from_str(q)));
    params.push((String::from_str("per_page"), String::from_str("200")));
    params.push((String::from_str("page"), String::from_str(page_text)));
    assert(params.deep_view() =~= seq![("q"@, q@), ("per_page"@, "200"@), ("page"@, page_text@)]);
    params
}


/// What one concurrent page fetch came back as: a parsed batch of
/// summaries, or a failure treated as contributing no items.
#[derive(Debug)]
pub enum PageOutcome {
    Parsed(Vec<Character>),
    Failed,
}

/// The items one page outcome contributes.
pub open spec fn spec_page_items(o: PageOutcome) -> Seq<Character> {
    match o {
        PageOutcome::Parsed(items) => items@,
        PageOutcome::Failed => Seq::empty(),
    }
}

/// All items the follow-up pages contribute, in page order.
pub open spec fn spec_flat(rest: Seq<PageOutcome>) -> Seq<Character>
    decreases rest.len(),
{
    if rest.len() == 0 {
        Seq::empty()
    } else {
        spec_page_items(rest[0]) + spec_flat(rest.drop_first())
    }
}

/// The whole listing: the first page's items followed by every
/// follow-up page's items.
pub open spec fn spec_collected(first: Seq<Character>, rest: Seq<PageOutcome>) -> Seq<
    Character,
> {
    first + spec_flat(rest)
}

/// How many items the successfully parsed follow-up pages discovered.
pub open spec fn spec_parsed_count(rest: Seq<PageOutcome>) -> nat
    decreases rest.len(),
{
    if rest.len() == 0 {
        0
    } else {
        spec_page_items(rest[0]).len() + spec_parsed_count(rest.drop_first())
    }
}

proof fn lemma_flat_len(rest: Seq<PageOutcome>)
    ensures
        spec_flat(rest).len() == spec_parsed_count(rest),
    decreases rest.len(),
{
    if rest.len() > 0 {
        lemma_flat_len(rest.drop_first());
    }
}

/// Items are conserved: the collected listing holds exactly as many
/// summaries as the successfully parsed pages discovered — items of
/// failed pages are absent, and none is duplicated or fabricated.
pub proof fn lemma_items_conserved(first: Seq<Character>, rest: Seq<PageOutcome>)
    ensures
        spec_collected(first, rest).len() == first.len() + spec_parsed_count(rest),
{
    lemma_flat_len(rest);
}

/// Flattens the first page's items and the follow-up page outcomes into
/// one listing, failed pages contributing nothing.
pub fn collect_pages(first: Vec<Character>, rest: Vec<PageOutcome>) -> (r: Vec<Character>)
    ensures
        r@ == spec_collected(first@, rest@),
{
    let ghost first0 = first@;
    let ghost rest0 = rest@;
    let mut result = first;
    let mut rest = rest;
    while rest.len() > 0
        invariant
            result@ + spec_flat(rest@) =~= spec_collected(first0, rest0),
        decreases rest@.len(),
    {
        let ghost pre = rest@;
        let o = rest.remove(0);
        proof {
            assert(o == pre[0]);
            assert(rest@ =~= pre.drop_first());
        }
        match o {
            PageOutcome::Parsed(items) => {
                let mut items = items;
                proof {
                    assert(spec_page_items(o) == items@);
                }
                result.append(&mut items);
            },
            PageOutcome::Failed => {
                proof {
                    assert(spec_page_items(o) =~= Seq::<Character>::empty());
                }
            },
        }
        proof {
            assert(result@ + spec_flat(rest@) =~= spec_collected(first0, rest0));
        }
    }
    proof {
        assert(result@ =~= spec_collected(first0, rest0));
    }
    result
}

/// The follow-up pages a listing needs: pages two up to the total. A
/// listing of at most one page needs none, so a single-page listing
/// never reaches the concurrent fan-out.
pub fn pages_to_fetch(total_pages: u8) -> (r: Vec<u8>)
    ensures
        total_pages <= 1 ==> r@ == Seq::<u8>::empty(),
        total_pages > 1 ==> r@.len() == total_pages - 1,
        forall|i: int| 0 <= i < r@.len() ==> r@[i] == i + 2,
{
    let mut v: Vec<u8> = Vec::new();
    let mut page: u16 = 2;
    while page <= total_pages as u16
        invariant
            2 <= page <= 256,
            total_pages <= 1 ==> page == 2,
            total_pages >= 2 ==> page <= total_pages as u16 + 1,
            page == v@.len() + 2,
            forall|i: int| 0 <= i < v@.len() ==> v@[i] == i + 2,
        decreases 257 - page as int,
    {
        v.push(page as u8);
        page = page + 1;
    }
    if total_pages <= 1 {
        assert(v@ =~= Seq::<u8>::empty());
    }
    v
}

// ---------------------------------------------------------------------
// Detail pages
// ---------------------------------------------------------------------
/// Whether every stat cell of a detail page reads as a `u8`.
pub open spec fn spec_valid_stat_texts(texts: Seq<Seq<char>>) -> bool {
    forall|i: int| 0 <= i < texts.len() ==> spec_valid_u8(#[trigger] texts[i])
}

/// The stat block a detail page's stat cells carry: the first seven
/// values when every cell is numeric and at least seven are present,
/// nothing otherwise. A partial block is never produced.
pub open spec fn spec_detail_stats(texts: Seq<Seq<char>>) -> Option<Stats> {
    if texts.len() >= 7 && spec_valid_stat_texts(texts) {
        Some(
            Stats {
                kick: spec_dec_val(texts[0]) as u8,
                control: spec_dec_val(texts[1]) as u8,
                technique: spec_dec_val(texts[2]) as u8,
                pressure: spec_dec_val(texts[3]) as u8,
                physical: spec_dec_val(texts[4]) as u8,
                agility: spec_dec_val(texts[5]) as u8,
                intelligence: spec_dec_val(texts[6]) as u8,
            },
        )
    } else {
        None
    }
}

/// Reads the stat cells of a detail page into a stat block, or into
/// nothing when a cell is missing or non-numeric.
pub fn parse_detail(stat_texts: &Vec<String>) -> (r: Option<Stats>)
    ensures
        r == spec_detail_stats(stat_texts.deep_view()),
{
    let ghost texts = stat_texts.deep_view();
    proof {
        assert forall|j: int| 0 <= j < texts.len() implies #[trigger] texts[j]
            == stat_texts@[j]@ by {}
    }
    let mut vals: Vec<u8> = Vec::new();
    let mut i: usize = 0;
    while i < stat_texts.len()
        invariant
            0 <= i <= stat_texts@.len(),
            texts == stat_texts.deep_view(),
            texts.len() == stat_texts@.len(),
            forall|j: int| 0 <= j < texts.len() ==> #[trigger] texts[j] == stat_texts@[j]@,
            vals@.len() == i,
            forall|j: int|
                0 <= j < i ==> spec_valid_u8(#[trigger] texts[j]) && vals@[j] == spec_dec_val(
                    texts[j],
                ) as u8,
        decreases stat_texts@.len() - i,
    {
        match parse_u8(stat_texts[i].as_str()) {
            Ok(v) => {
                vals.push(v);
            },
            Err(_) => {
                assert(!spec_valid_u8(texts[i as int]));
                return None;
            },
        }
        i = i + 1;
    }
    if vals.len() < 7 {
        return None;
    }
    Some(
        Stats {
            kick: vals[0],
            control: vals[1],
            technique: vals[2],
            pressure: vals[3],
            physical: vals[4],
            agility: vals[5],
            intelligence: vals[6],
        },
    )
}

/// Whether a summary names the deliberately unpublished sentinel: such a
/// character has no detail page and its stats are never fetched.
pub fn is_secret(c: &Character) -> (r: bool)
    ensures
        r == (c.name@.len() == 0),
{
    c.name.as_str().is_empty()
}

/// Attaches what a fetched detail page yielded: `None` when the page had
/// no stats block at all, otherwise whatever its stat cells read as.
/// Every other field of the summary stays as it was.
pub fn apply_detail_page(c: &mut Character, stat_texts: &Option<Vec<String>>)
    ensures
        final(c).stats == (match *stat_texts {
            Option::None => old(c).stats,
            Option::Some(texts) => (match spec_detail_stats(texts.deep_view()) {
                Option::Some(s) => Some(s),
                Option::None => old(c).stats,
            }),
        }),
        final(c).number == old(c).number,
        final(c).name == old(c).name,
        final(c).nickname == old(c).nickname,
        final(c).element == old(c).element,
        final(c).position == old(c).position,
        final(c).page_url == old(c).page_url,
{
    match stat_texts {
        Option::None => {},
        Option::Some(texts) => {
            match parse_detail(texts) {
                Option::Some(s) => {
                    c.stats = Some(s);
                },
                Option::None => {},
            }
        },
    }
}

} // verus!
