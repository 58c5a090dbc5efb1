use inazugle_scraper::errors::ScrapeError;
use inazugle_scraper::request::{validate_parallelism, Request};
use inazugle_scraper::utils::{Element, Game, Position};

#[test]
fn new_request_has_empty_criteria() {
    let r = Request::new();
    assert_eq!(r.name, "");
    assert!(!r.has_element(&Element::FIRE));
    assert!(!r.has_position(&Position::GK));
    assert!(!r.has_game(&Game::ARES));
}

#[test]
fn toggling_an_element_twice_restores_it() {
    let mut r = Request::new();
    r.toggle_element(&Element::WIND);
    assert!(r.has_element(&Element::WIND));
    assert!(!r.has_element(&Element::FIRE));
    r.toggle_element(&Element::WIND);
    assert!(!r.has_element(&Element::WIND));
}

#[test]
fn toggles_on_different_dimensions_are_independent() {
    let mut r = Request::new();
    r.toggle_position(&Position::MF);
    r.toggle_game(&Game::VR);
    assert!(r.has_position(&Position::MF));
    assert!(r.has_game(&Game::VR));
    assert!(!r.has_element(&Element::FOREST));
    r.toggle_position(&Position::DF);
    assert!(r.has_position(&Position::MF));
    assert!(r.has_position(&Position::DF));
}

#[test]
fn empty_filter_builds_only_base_params() {
    let r = Request::new();
    let params = r.build_params();
    assert_eq!(params.len(), 2);
    assert_eq!(params[0].0, "rc");
    assert_eq!(params[0].1, "0");
    assert_eq!(params[1].0, "per_page");
    assert_eq!(params[1].1, "200");
}

#[test]
fn build_params_lists_selected_filters_in_order() {
    let mut r = Request::new();
    r.name = String::from("mark");
    r.toggle_element(&Element::WIND);
    r.toggle_position(&Position::GK);
    r.toggle_game(&Game::ARES);
    let params = r.build_params();
    let expected = vec![
        ("rc", "0"),
        ("per_page", "200"),
        ("name_search", "mark"),
        ("attr_filter", "風"),
        ("pos_filter", "GK"),
        ("version_filter", "アレス"),
    ];
    assert_eq!(params.len(), expected.len());
    for (got, want) in params.iter().zip(expected.iter()) {
        assert_eq!(got.0, want.0);
        assert_eq!(got.1, want.1);
    }
}

#[test]
fn build_params_keeps_menu_order_within_a_dimension() {
    let mut r = Request::new();
    r.toggle_element(&Element::MOUNTAIN);
    r.toggle_element(&Element::FIRE);
    let params = r.build_params();
    // FIRE comes before MOUNTAIN, as the filter menu lists them
    assert_eq!(params.len(), 4);
    assert_eq!(params[2].1, "火");
    assert_eq!(params[3].1, "山");
}

#[test]
fn parallelism_is_validated_between_one_and_fifty() {
    assert_eq!(validate_parallelism(1), Ok(1));
    assert_eq!(validate_parallelism(20), Ok(20));
    assert_eq!(validate_parallelism(50), Ok(50));
    assert_eq!(validate_parallelism(0), Err(ScrapeError::Config));
    assert_eq!(validate_parallelism(51), Err(ScrapeError::Config));
}
