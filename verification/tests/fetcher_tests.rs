use inazugle_scraper::errors::ScrapeError;
use inazugle_scraper::fetcher::{
    collect_pages, element_from_text, page_params, pages_to_fetch, parse_detail,
    parse_search_result, parse_u16, parse_u8, position_from_text, resolve_page_url, PageOutcome,
    RawRow,
};
use inazugle_scraper::utils::{Character, Element, Position, Progress, Stats};

fn summary(n: u16) -> Character {
    Character {
        number: n,
        name: format!("Player {n}"),
        nickname: format!("P{n}"),
        element: Element::WIND,
        position: Position::MF,
        stats: None,
        page_url: String::from("https://zukan.inazuma.jp/en/chara/1"),
    }
}

fn row(number: &str) -> RawRow {
    RawRow {
        name: String::from("Mark Evans"),
        nickname: String::from("Mark"),
        number_text: String::from(number),
        element_text: String::from("Mountain"),
        position_text: String::from("GK"),
        page_href: String::from("/en/chara/detail?id=1"),
    }
}

#[test]
fn parse_u16_reads_exact_values() {
    assert_eq!(parse_u16("0"), Ok(0));
    assert_eq!(parse_u16("457"), Ok(457));
    assert_eq!(parse_u16("65535"), Ok(65535));
    assert_eq!(parse_u16("007"), Ok(7));
}

#[test]
fn parse_u16_rejects_bad_numerals() {
    assert_eq!(parse_u16(""), Err(ScrapeError::Parse));
    assert_eq!(parse_u16("12a"), Err(ScrapeError::Parse));
    assert_eq!(parse_u16("-3"), Err(ScrapeError::Parse));
    assert_eq!(parse_u16("65536"), Err(ScrapeError::Parse));
    assert_eq!(parse_u16("999999999999"), Err(ScrapeError::Parse));
}

#[test]
fn parse_u8_bounds_at_byte_range() {
    assert_eq!(parse_u8("255"), Ok(255));
    assert_eq!(parse_u8("256"), Err(ScrapeError::Parse));
    assert_eq!(parse_u8("3"), Ok(3));
}

#[test]
fn element_and_position_texts_map_to_variants() {
    assert_eq!(element_from_text(&String::from("Mountain")), Element::MOUNTAIN);
    assert_eq!(element_from_text(&String::from("Fire")), Element::FIRE);
    assert_eq!(element_from_text(&String::from("Forest")), Element::FOREST);
    assert_eq!(element_from_text(&String::from("Wind")), Element::WIND);
    assert_eq!(element_from_text(&String::from("???")), Element::NONE);
    assert_eq!(position_from_text(&String::from("GK")), Position::GK);
    assert_eq!(position_from_text(&String::from("DF")), Position::DF);
    assert_eq!(position_from_text(&String::from("MF")), Position::MF);
    assert_eq!(position_from_text(&String::from("FW")), Position::FW);
    assert_eq!(position_from_text(&String::from("")), Position::NONE);
}

#[test]
fn relative_links_resolve_against_the_base_origin() {
    assert_eq!(
        resolve_page_url("/en/chara/detail?id=1"),
        "https://zukan.inazuma.jp/en/chara/detail?id=1"
    );
    assert_eq!(resolve_page_url(""), "");
}

#[test]
fn parse_search_result_reads_rows_and_page_count() {
    let rows = vec![row("17"), row("42")];
    let (chars, total) = parse_search_result(rows, "3").unwrap();
    assert_eq!(total, 3);
    assert_eq!(chars.len(), 2);
    assert_eq!(chars[0].number, 17);
    assert_eq!(chars[0].name, "Mark Evans");
    assert_eq!(chars[0].element, Element::MOUNTAIN);
    assert_eq!(chars[0].position, Position::GK);
    assert_eq!(chars[0].stats, None);
    assert_eq!(chars[0].page_url, "https://zukan.inazuma.jp/en/chara/detail?id=1");
    assert_eq!(chars[1].number, 42);
}

#[test]
fn empty_listing_is_a_success_not_an_error() {
    let (chars, total) = parse_search_result(Vec::new(), "1").unwrap();
    assert!(chars.is_empty());
    assert_eq!(total, 1);
}

#[test]
fn parse_search_result_fails_on_a_bad_number_cell() {
    let rows = vec![row("17"), row("not-a-number")];
    assert_eq!(parse_search_result(rows, "3"), Err(ScrapeError::Parse));
}

#[test]
fn parse_search_result_fails_on_a_bad_page_count() {
    let rows = vec![row("17")];
    assert_eq!(parse_search_result(rows, "many"), Err(ScrapeError::Parse));
}

#[test]
fn follow_up_pages_carry_the_continuation_token() {
    let params = page_params("abc123", "2");
    assert_eq!(params.len(), 3);
    assert_eq!(params[0].0, "q");
    assert_eq!(params[0].1, "abc123");
    assert_eq!(params[1].0, "per_page");
    assert_eq!(params[1].1, "200");
    assert_eq!(params[2].0, "page");
    assert_eq!(params[2].1, "2");
}

#[test]
fn single_page_listing_needs_no_fanout() {
    assert!(pages_to_fetch(0).is_empty());
    assert!(pages_to_fetch(1).is_empty());
    assert_eq!(pages_to_fetch(2), vec![2]);
    assert_eq!(pages_to_fetch(4), vec![2, 3, 4]);
}

#[test]
fn failed_pages_contribute_no_items() {
    let first = vec![summary(1), summary(2)];
    let rest = vec![
        PageOutcome::Failed,
        PageOutcome::Parsed(vec![summary(3)]),
        PageOutcome::Failed,
    ];
    let all = collect_pages(first, rest);
    assert_eq!(all.len(), 3);
    assert_eq!(all[0].number, 1);
    assert_eq!(all[1].number, 2);
    assert_eq!(all[2].number, 3);
}

#[test]
fn full_listing_scenario_collects_all_pages() {
    // Empty criteria; the remote answers three pages of 200, 200 and 57
    // items. The listing ends with 457 summaries and progress (3, 3),
    // then the detail phase counts to (457, 457).
    let first: Vec<Character> = (0..200).map(|i| summary(i as u16)).collect();
    let page2: Vec<Character> = (200..400).map(|i| summary(i as u16)).collect();
    let page3: Vec<Character> = (400..457).map(|i| summary(i as u16)).collect();
    let rest = vec![PageOutcome::Parsed(page2), PageOutcome::Parsed(page3)];
    let all = collect_pages(first, rest);
    assert_eq!(all.len(), 457);
    for (i, c) in all.iter().enumerate() {
        assert_eq!(c.number, i as u16);
    }

    let mut progress = Progress::new().internal;
    progress.set_page_total(3);
    for _ in 0..3 {
        progress.inc_page();
    }
    assert_eq!(progress.pages(), (3, 3));
    assert!(progress.pages_done());
    progress.set_char_total(457);
    for _ in 0..457 {
        progress.inc_char();
    }
    assert_eq!(progress.characters(), (457, 457));
    assert!(progress.characters_done());
}

#[test]
fn parse_detail_reads_exactly_seven_stats() {
    let texts: Vec<String> = ["10", "20", "30", "40", "50", "60", "70"]
        .iter()
        .map(|s| s.to_string())
        .collect();
    let stats = parse_detail(&texts).unwrap();
    assert_eq!(
        stats,
        Stats {
            kick: 10,
            control: 20,
            technique: 30,
            pressure: 40,
            physical: 50,
            agility: 60,
            intelligence: 70,
        }
    );
}

#[test]
fn parse_detail_refuses_partial_or_malformed_blocks() {
    let six: Vec<String> = ["1", "2", "3", "4", "5", "6"].iter().map(|s| s.to_string()).collect();
    assert_eq!(parse_detail(&six), None);
    let bad: Vec<String> = ["1", "2", "3", "4", "5", "6", "x"]
        .iter()
        .map(|s| s.to_string())
        .collect();
    assert_eq!(parse_detail(&bad), None);
    let oversized: Vec<String> = ["1", "2", "3", "4", "5", "6", "7", "boost"]
        .iter()
        .map(|s| s.to_string())
        .collect();
    // a non-numeric trailing cell spoils the whole block
    assert_eq!(parse_detail(&oversized), None);
}
