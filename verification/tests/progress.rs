use inazugle_scraper::utils::Progress;

#[test]
fn progress_starts_at_zero() {
    let p = Progress::new();
    assert_eq!(p.internal.pages(), (0, 0));
    assert_eq!(p.internal.characters(), (0, 0));
    assert!(!p.internal.pages_done());
    assert!(!p.internal.characters_done());
}

#[test]
fn progress_page_phase_counts_up_to_total() {
    let mut p = Progress::new().internal;
    p.set_page_total(3);
    assert_eq!(p.pages(), (0, 3));
    p.inc_page();
    assert_eq!(p.pages(), (1, 3));
    assert!(!p.pages_done());
    p.inc_page();
    p.inc_page();
    assert_eq!(p.pages(), (3, 3));
    assert!(p.pages_done());
}

#[test]
fn progress_char_phase_flag_flips_on_last_item() {
    let mut p = Progress::new().internal;
    p.set_char_total(2);
    assert!(!p.characters_done());
    p.inc_char();
    assert!(!p.characters_done());
    p.inc_char();
    assert!(p.characters_done());
    assert_eq!(p.characters(), (2, 2));
}

#[test]
fn progress_done_never_exceeds_total_and_never_regresses() {
    let mut p = Progress::new().internal;
    p.set_char_total(5);
    let mut previous: u16 = 0;
    for _ in 0..5 {
        p.inc_char();
        let (done, total) = p.characters();
        assert!(done <= total);
        assert!(done >= previous);
        previous = done;
    }
}

#[test]
fn progress_phases_are_independent() {
    let mut p = Progress::new().internal;
    p.set_page_total(2);
    p.inc_page();
    p.set_char_total(10);
    p.inc_char();
    assert_eq!(p.pages(), (1, 2));
    assert_eq!(p.characters(), (1, 10));
}
