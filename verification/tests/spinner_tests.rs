use simpleprogress::Spinner;
use simpleprogress::finish_line;
use simpleprogress::rewrite_line;

#[test]
fn render_glyph_space_message() {
    let spinner = Spinner::new().with_message("Loading");
    assert_eq!(spinner.render(), "\u{280b} Loading");
}

#[test]
fn empty_message_leaves_trailing_space() {
    let spinner = Spinner::new();
    assert_eq!(spinner.render(), "\u{280b} ");
}

#[test]
fn tick_cycles_through_ten_distinct_glyphs() {
    let mut spinner = Spinner::new();
    let first = spinner.render();
    let mut seen: Vec<String> = vec![first.clone()];
    for _ in 0..9 {
        spinner.tick();
        let text = spinner.render();
        assert!(!seen.contains(&text));
        seen.push(text);
    }
    assert_eq!(seen.len(), 10);
    spinner.tick();
    assert_eq!(spinner.render(), first);
}

#[test]
fn set_message_takes_effect_on_next_render() {
    let mut spinner = Spinner::new().with_message("one");
    spinner.set_message("two");
    assert_eq!(spinner.render(), "\u{280b} two");
}

#[test]
fn message_survives_ticks() {
    let mut spinner = Spinner::new().with_message("work");
    spinner.tick();
    assert_eq!(spinner.render(), "\u{2819} work");
}

#[test]
fn finish_line_ends_with_newline() {
    let text = finish_line("Complete!");
    assert_eq!(text, "\rComplete!\n");
    assert!(text.ends_with('\n'));
    assert!(finish_line("").ends_with('\n'));
}

#[test]
fn rewrite_line_wraps_text_in_controls() {
    assert_eq!(rewrite_line("hi"), "\rhi\x1b[K");
    assert_eq!(rewrite_line(""), "\r\x1b[K");
}
