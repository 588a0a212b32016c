use ruostepurkki::container::ContentContainer;
use ruostepurkki::document::Line;

#[test]
fn text_contents_are_not_wrapped() {
    let mut c = ContentContainer::new(10, 5);
    c.set_contents_text("a line that is much longer than ten\nsecond\r\nthird\n");
    let mut d = ContentContainer::new(10, 5);
    d.set_contents_text("one\r\ntwo\r");
    assert_eq!(d.rendered_rows().clone(), vec!["one", "two\r"]);
    assert_eq!(c.rendered_rows().len(), 3);
    assert_eq!(c.rendered_rows()[1], "second");
    assert_eq!(c.visible_rows(), vec!["a line tha", "second", "third"]);
    assert_eq!(c.link(1), None);
}

#[test]
fn scrolling_is_clamped() {
    let mut c = ContentContainer::new(4, 4);
    c.set_contents_text("0123456\n1\n2\n3\n4");
    assert_eq!(c.scroll_pos(), (0, 0));
    c.scroll_up();
    c.scroll_left();
    assert_eq!(c.scroll_pos(), (0, 0));
    for _ in 0..10 {
        c.scroll_down();
        c.scroll_right();
    }
    assert_eq!(c.scroll_pos(), (3, 3));
    assert_eq!(c.visible_rows(), vec!["", ""]);
    c.set_contents_text("new");
    assert_eq!(c.scroll_pos(), (0, 0));
}

#[test]
fn resize_rewraps_and_clamps() {
    let mut c = ContentContainer::new(80, 10);
    let doc = vec![Line::Text("one two three four".to_string())];
    c.set_contents_gemini(&doc);
    assert_eq!(c.rendered_rows().len(), 1);
    c.resize(8, 10);
    assert_eq!(c.rendered_rows().clone(), vec!["one two ", "three ", "four"]);
    c.resize(8, 3);
    for _ in 0..5 {
        c.scroll_down();
    }
    assert_eq!(c.scroll_pos(), (2, 0));
    c.resize(8, 10);
    assert_eq!(c.scroll_pos(), (0, 0));
}

#[test]
fn gemini_links_are_numbered() {
    let mut c = ContentContainer::new(40, 10);
    let doc = vec![
        Line::Link("a.gmi".to_string(), Some("First".to_string())),
        Line::Heading1("Title".to_string()),
        Line::Link("gemini://b/".to_string(), None),
        Line::Preformatted("  keep   this  as it is, however long it is".to_string()),
    ];
    c.set_contents_gemini(&doc);
    assert_eq!(
        c.rendered_rows().clone(),
        vec!["[1] => First", "Title", "[2] => gemini://b/", "  keep   this  as it is, however long it is"]
    );
    assert_eq!(c.link(1), Some("a.gmi".to_string()));
    assert_eq!(c.link(2), Some("gemini://b/".to_string()));
    assert_eq!(c.link(0), None);
    assert_eq!(c.link(3), None);
}

#[test]
fn margins_shrink_the_viewport() {
    let mut c = ContentContainer::new(20, 10);
    c.set_margins(2, 2, 3, 3, 20, 10);
    assert_eq!(c.margins(), (2, 2, 3, 3));
    c.set_contents_text("abcdefghijklmnopqrstuvwxyz");
    assert_eq!(c.visible_rows(), vec!["abcdefghijklmn"]);
}

#[test]
fn visible_row_is_a_prefix() {
    let mut c = ContentContainer::new(2, 4);
    c.set_contents_text("a日b");
    assert_eq!(c.visible_rows(), vec!["a"]);
}

#[test]
fn horizontal_scroll_skips_wide_graphemes() {
    let mut c = ContentContainer::new(3, 4);
    c.set_contents_text("日本語x");
    c.scroll_right();
    assert_eq!(c.scroll_pos(), (0, 1));
    assert_eq!(c.visible_rows(), vec!["本"]);
}
