use inazugle_scraper::pages::SettingsPage;
use inazugle_scraper::utils::{element_list, game_list, position_list, Element, Game, Position};

#[test]
fn element_strings_match_the_catalog() {
    assert_eq!(Element::MOUNTAIN.req_str(), "山");
    assert_eq!(Element::FIRE.req_str(), "火");
    assert_eq!(Element::FOREST.req_str(), "林");
    assert_eq!(Element::WIND.req_str(), "風");
    assert_eq!(Element::NONE.req_str(), "");
    assert_eq!(Element::MOUNTAIN.db_str(), "Mountain");
    assert_eq!(Element::NONE.db_str(), "Unknown");
}

#[test]
fn position_and_game_strings_match_the_catalog() {
    assert_eq!(Position::GK.to_str(), "GK");
    assert_eq!(Position::NONE.to_str(), "");
    assert_eq!(Game::ARES.req_str(), "アレス");
    assert_eq!(Game::ORION.req_str(), "オリオン");
    assert_eq!(Game::VR.req_str(), "Vロード");
    assert_eq!(Game::GO2.to_str(), "GO Chrono Stones");
    assert_eq!(Game::VR.to_str(), "Victory Road");
}

#[test]
fn flags_are_distinct_single_bits() {
    let elems = [
        Element::MOUNTAIN,
        Element::FIRE,
        Element::FOREST,
        Element::WIND,
        Element::NONE,
    ];
    for (i, a) in elems.iter().enumerate() {
        assert!(a.flag().bits.count_ones() == 1);
        for b in elems.iter().skip(i + 1) {
            assert_ne!(a.flag().bits, b.flag().bits);
        }
    }
    let games = [
        Game::IE1,
        Game::IE2,
        Game::IE3,
        Game::GO1,
        Game::GO2,
        Game::GO3,
        Game::ARES,
        Game::ORION,
        Game::VR,
    ];
    for (i, a) in games.iter().enumerate() {
        assert!(a.flag().bits.count_ones() == 1);
        for b in games.iter().skip(i + 1) {
            assert_ne!(a.flag().bits, b.flag().bits);
        }
    }
}

#[test]
fn menu_lists_hold_every_choice_once() {
    assert_eq!(
        element_list(),
        vec![Element::FIRE, Element::FOREST, Element::MOUNTAIN, Element::WIND]
    );
    assert_eq!(
        position_list(),
        vec![Position::FW, Position::MF, Position::DF, Position::GK]
    );
    assert_eq!(game_list().len(), 9);
    assert_eq!(game_list()[0], Game::IE1);
    assert_eq!(game_list()[8], Game::VR);
}

#[test]
fn settings_default_to_twenty_connections() {
    let s = SettingsPage::default();
    assert_eq!(s.max_parallelism, 20);
}
