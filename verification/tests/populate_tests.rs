use inazugle_scraper::database::Database;
use inazugle_scraper::errors::ScrapeError;
use inazugle_scraper::populate::{begin_item, cache_step, fetch_step, filter_complete, finish_item};
use inazugle_scraper::utils::{Character, Element, Position, Stats};

fn summary(n: u16) -> Character {
    Character {
        number: n,
        name: format!("Player {n}"),
        nickname: format!("P{n}"),
        element: Element::FIRE,
        position: Position::FW,
        stats: None,
        page_url: String::from("https://zukan.inazuma.jp/en/chara/detail?id=1"),
    }
}

fn block(base: u8) -> Stats {
    Stats {
        kick: base,
        control: base + 1,
        technique: base + 2,
        pressure: base + 3,
        physical: base + 4,
        agility: base + 5,
        intelligence: base + 6,
    }
}

fn stat_texts(base: u8) -> Vec<String> {
    (0..7u8).map(|i| (base + i).to_string()).collect()
}

#[test]
fn cache_step_attaches_cached_stats_on_a_hit() {
    let mut c = summary(1);
    let hit = cache_step(&mut c, Some(block(10)));
    assert!(hit);
    assert_eq!(c.stats, Some(block(10)));
    assert_eq!(c.name, "Player 1");
}

#[test]
fn cache_step_leaves_a_miss_untouched() {
    let mut c = summary(2);
    let hit = cache_step(&mut c, None);
    assert!(!hit);
    assert_eq!(c, summary(2));
}

#[test]
fn fetch_step_attaches_fetched_stats_and_asks_for_a_write() {
    let mut c = summary(3);
    let store = fetch_step(&mut c, &Some(stat_texts(10)));
    assert!(store);
    assert_eq!(c.stats, Some(block(10)));
}

#[test]
fn fetch_step_leaves_an_empty_page_bare_and_unwritten() {
    let mut c = summary(4);
    let store = fetch_step(&mut c, &None);
    assert!(!store);
    assert_eq!(c.stats, None);
}

#[test]
fn cached_character_is_served_without_a_fetch() {
    // An identifier already cached with a full stat block is produced
    // without any detail-page fetch and without a second cache write.
    let db = Database::connect(":memory:").unwrap();
    let mut seeded = summary(7);
    seeded.stats = Some(block(20));
    assert!(db.store_character(&seeded));

    let mut fresh = summary(7);
    let needs_fetch = begin_item(&db, &mut fresh);
    assert!(!needs_fetch);
    assert_eq!(fresh.stats, Some(block(20)));
}

#[test]
fn miss_writes_through_and_warms_the_cache() {
    // A cold item is fetched once and written through; a second run
    // against the warmed cache is a pure hit with the same outcome.
    let db = Database::connect(":memory:").unwrap();
    let mut c = summary(9);
    assert!(begin_item(&db, &mut c));
    let stored = finish_item(&db, &mut c, &Some(stat_texts(30)));
    assert!(stored);
    assert_eq!(c.stats, Some(block(30)));

    let mut again = summary(9);
    let needs_fetch = begin_item(&db, &mut again);
    assert!(!needs_fetch);
    assert_eq!(again.stats, c.stats);
}

#[test]
fn empty_detail_page_is_not_cached_and_is_retried() {
    // The "no stats" sentinel leaves the item bare and writes nothing,
    // so a future run misses again and retries it.
    let db = Database::connect(":memory:").unwrap();
    let mut c = summary(11);
    assert!(begin_item(&db, &mut c));
    let stored = finish_item(&db, &mut c, &None);
    assert!(!stored);
    assert_eq!(c.stats, None);

    let mut again = summary(11);
    assert!(begin_item(&db, &mut again));
    assert_eq!(again.stats, None);
}

#[test]
fn secret_character_is_never_fetched() {
    let db = Database::connect(":memory:").unwrap();
    let mut c = summary(12);
    c.name = String::new();
    let needs_fetch = begin_item(&db, &mut c);
    assert!(!needs_fetch);
    assert_eq!(c.stats, None);
}

#[test]
fn malformed_detail_page_is_not_cached() {
    let db = Database::connect(":memory:").unwrap();
    let mut c = summary(13);
    assert!(begin_item(&db, &mut c));
    let bad: Vec<String> = vec![String::from("1"), String::from("oops")];
    let stored = finish_item(&db, &mut c, &Some(bad));
    assert!(!stored);
    assert_eq!(c.stats, None);
}

#[test]
fn connect_fails_with_a_cache_error_on_an_unusable_path() {
    let r = Database::connect("/dev/null/never/its.sqlite");
    assert_eq!(r.err(), Some(ScrapeError::Cache));
}

#[test]
fn filter_complete_keeps_only_enriched_records_in_order() {
    let mut a = summary(1);
    a.stats = Some(block(1));
    let b = summary(2);
    let mut c = summary(3);
    c.stats = Some(block(3));
    let filtered = filter_complete(vec![a.clone(), b, c.clone()]);
    assert_eq!(filtered.len(), 2);
    assert_eq!(filtered[0], a);
    assert_eq!(filtered[1], c);
}

#[test]
fn filter_complete_of_an_empty_batch_is_empty() {
    assert!(filter_complete(Vec::new()).is_empty());
}
