use simpleprogress::BasicProgressBar;

// Amounts are fixed-point: 100 hundredths is one unit, so `new(1000)` is a
// bar with a total of 10.00 units.

#[test]
fn arrow_placement() {
    // total 10.00, current 3.00, width 10: two fill characters, one arrow,
    // seven empty characters inside the brackets.
    let mut bar = BasicProgressBar::new(1000).width(10);
    bar.set(300);
    assert_eq!(bar.render(), "[==>       ] 30.00% (3.00/10.00)");
}

#[test]
fn no_arrow_fills_completely() {
    let mut bar = BasicProgressBar::new(1000).width(10).no_arrow().no_percentage().no_count();
    bar.set(300);
    assert_eq!(bar.render(), "[===       ]");
}

#[test]
fn set_clamps_below() {
    // set(-5.00) on a bar with total 100.00 yields a current of 0.
    let mut bar = BasicProgressBar::new(10000).no_bar().no_percentage();
    bar.set(-500);
    assert_eq!(bar.render(), "(0.00/100.00)");
}

#[test]
fn set_clamps_above() {
    // set(500.00) on a bar with total 100.00 yields a current of 100.00.
    let mut bar = BasicProgressBar::new(10000).no_bar().no_percentage();
    bar.set(50000);
    assert_eq!(bar.render(), "(100.00/100.00)");
}

#[test]
fn negative_total_clamps_to_total() {
    // The clamp floors at 0 first and caps at the total second, so with a
    // negative total every set lands on the total itself.
    let mut bar = BasicProgressBar::new(-100).no_bar().no_percentage();
    bar.set(50);
    assert_eq!(bar.render(), "(-1.00/-1.00)");
}

#[test]
fn is_finished_threshold() {
    let mut bar = BasicProgressBar::new(1000);
    assert!(!bar.is_finished());
    bar.inc_by(1000);
    assert!(bar.is_finished());
    bar.inc_by(-100);
    assert!(!bar.is_finished());
}

#[test]
fn inc_adds_one_unit() {
    let mut bar = BasicProgressBar::new(300).no_bar().no_percentage();
    bar.inc();
    assert_eq!(bar.render(), "(1.00/3.00)");
}

#[test]
fn percentage_exact_quarter() {
    let mut bar = BasicProgressBar::new(400).no_bar().no_count();
    bar.set(100);
    assert_eq!(bar.render(), "25.00%");
}

#[test]
fn percentage_rounds_to_nearest() {
    let mut bar = BasicProgressBar::new(300).no_bar().no_count();
    bar.set(100);
    // 100 / 300 is 33.333...%, shown to two decimal places.
    assert_eq!(bar.render(), "33.33%");
    bar.set(200);
    // 200 / 300 is 66.666...%, rounded up.
    assert_eq!(bar.render(), "66.67%");
}

#[test]
fn zero_total_renders_zero_percentage() {
    let bar = BasicProgressBar::new(0).width(4).no_count();
    assert_eq!(bar.render(), "[    ] 0.00%");
}

#[test]
fn bar_width_is_kept() {
    // The bracketed segment holds exactly `width` characters whatever the
    // amounts are.
    for &(total, current) in &[(1000i64, 0i64), (1000, 999), (1000, 1000), (0, 500), (7, 3)] {
        let mut bar = BasicProgressBar::new(total).width(13).no_percentage().no_count();
        bar.set(current);
        let text = bar.render();
        assert_eq!(text.chars().count(), 15);
        assert!(text.starts_with('['));
        assert!(text.ends_with(']'));
    }
}

#[test]
fn zero_width_renders_empty_brackets() {
    let mut bar = BasicProgressBar::new(1000).width(0).no_percentage().no_count();
    bar.set(500);
    assert_eq!(bar.render(), "[]");
}

#[test]
fn all_flags_off_renders_empty() {
    let mut bar = BasicProgressBar::new(10000).no_bar().no_percentage().no_count();
    bar.set(5000);
    assert_eq!(bar.render(), "");
}

#[test]
fn negative_progress_renders_empty_bar() {
    // A negative amount (reachable through inc_by) leaves the fill at zero.
    let mut bar = BasicProgressBar::new(100).width(4).no_percentage();
    bar.inc_by(-250);
    assert_eq!(bar.render(), "[    ] (-2.50/1.00)");
}

#[test]
fn negative_percentage() {
    let mut bar = BasicProgressBar::new(100).no_bar().no_count();
    bar.inc_by(-250);
    assert_eq!(bar.render(), "-250.00%");
}

#[test]
fn custom_characters() {
    let mut bar = BasicProgressBar::new(400).width(4).chars('#', '.', '}').no_percentage()
        .no_count();
    bar.set(200);
    assert_eq!(bar.render(), "[#}..]");
}

#[test]
fn rate_and_eta() {
    // 2.50 of 10.00 units after 2000 ms: rate 1.25/sec, 7.50 units left,
    // ETA 6 seconds.
    let mut bar = BasicProgressBar::new(1000).no_bar().no_percentage().no_count().with_rate();
    bar.set(250);
    assert_eq!(bar.render_with_elapsed(2000), "1.25/sec ETA: 6s");
}

#[test]
fn eta_absent_when_finished() {
    let mut bar = BasicProgressBar::new(1000).no_bar().no_percentage().no_count().with_rate();
    bar.set(1000);
    assert_eq!(bar.render_with_elapsed(2000), "5.00/sec");
}

#[test]
fn eta_absent_without_progress() {
    let bar = BasicProgressBar::new(1000).no_bar().no_percentage().no_count().with_rate();
    assert_eq!(bar.render_with_elapsed(2000), "0.00/sec");
}

#[test]
fn rate_zero_when_no_time_elapsed() {
    let mut bar = BasicProgressBar::new(1000).no_bar().no_percentage().no_count().with_rate();
    bar.set(500);
    assert_eq!(bar.render_with_elapsed(0), "0.00/sec");
}

#[test]
fn rate_rounds_to_two_decimals() {
    // 1.00 unit in 3000 ms is 0.3333... units per second.
    let mut bar = BasicProgressBar::new(1000).no_bar().no_percentage().no_count().with_rate();
    bar.set(100);
    assert_eq!(bar.render_with_elapsed(3000), "0.33/sec ETA: 27s");
}

#[test]
fn render_reads_clock_for_rate() {
    let mut bar = BasicProgressBar::new(1000).no_bar().no_percentage().no_count().with_rate();
    bar.set(500);
    let text = bar.render();
    assert!(text.contains("/sec"));
}

#[test]
fn default_width_is_fifty() {
    let bar = BasicProgressBar::new(1000).no_percentage().no_count();
    let text = bar.render();
    assert_eq!(text.chars().count(), 52);
}
