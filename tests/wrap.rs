use unicode_width::UnicodeWidthStr;
use ruostepurkki::wrap::pretty_wrap;

#[test]
fn wrap_fitting_line_is_unchanged() {
    assert_eq!(pretty_wrap("short", 10), vec!["short".to_string()]);
    assert_eq!(pretty_wrap("", 3), vec!["".to_string()]);
}

#[test]
fn wrap_packs_words_greedily() {
    let rows = pretty_wrap("hello world foo", 5);
    assert_eq!(rows, vec!["hello", " ", "world", " foo"]);
}

#[test]
fn wrap_splits_long_word_by_grapheme() {
    let rows = pretty_wrap("abcdefgh", 3);
    assert_eq!(rows, vec!["abc", "def", "gh"]);
}

#[test]
fn wrap_rows_fit_and_keep_content() {
    let line = "Gemini (the protocol) is small; 日本語のテキストも折り返す. Ünïcödé too!";
    for width in 2..40usize {
        let rows = pretty_wrap(line, width);
        for r in &rows {
            assert!(UnicodeWidthStr::width(r.as_str()) <= width, "row {:?} wider than {}", r, width);
        }
        assert_eq!(rows.concat(), line);
    }
}

#[test]
fn wrap_wide_grapheme_in_narrow_row() {
    let rows = pretty_wrap("日本", 1);
    assert_eq!(rows.concat(), "日本");
    assert_eq!(rows, vec!["日", "本"]);
}

#[test]
fn wrap_counts_wide_characters_as_two_columns() {
    assert_eq!(pretty_wrap("日本 語", 4), vec!["日本", " 語"]);
    assert_eq!(pretty_wrap("ab cd", 5), vec!["ab cd"]);
}
