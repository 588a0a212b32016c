use ruostepurkki::document::{is_gemini_doc, is_text_doc, parse_gemini_doc, Line};

#[test]
fn document_parse_textlines() {
    let t = "This is a text line\n\
             this is one too.\n\
             日本語";
    let r = parse_gemini_doc(&t);
    assert_eq!(r.len(), 3);
    for (i, line) in r.into_iter().enumerate() {
        match i {
            0 => {
                assert!(line == Line::Text("This is a text line".to_string()));
            }
            1 => {
                assert!(line == Line::Text("this is one too.".to_string()));
            }
            2 => {
                assert!(line == Line::Text("日本語".to_string()));
            }
            _ => assert!(false),
        }
    }
}

#[test]
fn document_parse_linklines() {
    let t = "=> gemini://example.com Link to example\n\
             =>        gemini://another.site       This one has some more whitespace\n\
             =>gemini://third.one 漢字\n\
             =>gemini://no.name";
    let r = parse_gemini_doc(&t);

    assert_eq!(r.len(), 4);
    for (i, line) in r.into_iter().enumerate() {
        match i {
            0 => {
                assert!(line == Line::Link("gemini://example.com".to_string(), Some("Link to example".to_string())));
            }
            1 => {
                assert!(
                    line == Line::Link(
                        "gemini://another.site".to_string(),
                        Some("This one has some more whitespace".to_string())
                    )
                );
            }
            2 => {
                assert!(line == Line::Link("gemini://third.one".to_string(), Some("漢字".to_string())));
            }
            3 => {
                assert!(line == Line::Link("gemini://no.name".to_string(), None));
            }
            _ => assert!(false),
        }
    }
}

#[test]
fn document_parse_preformatted() {
    let t = "Normal line here\n\
             ```\n\
             This is preformatted\n\
             ```This shouldn't appear in the result\n\
             This is not";
    let r = parse_gemini_doc(&t);

    assert_eq!(r.len(), 3);

    for (i, line) in r.into_iter().enumerate() {
        match i {
            0 => {
                assert!(line == Line::Text("Normal line here".to_string()));
            }
            1 => {
                assert!(line == Line::Preformatted("This is preformatted".to_string()));
            }
            2 => {
                assert!(line == Line::Text("This is not".to_string()));
            }
            _ => assert!(false),
        }
    }
}

#[test]
fn document_parse_heading() {
    let t = "# Level 1 heading\n\
             ##Level 2 heading\n\
             ### レベル 3 ヘディング";
    let r = parse_gemini_doc(&t);

    assert_eq!(r.len(), 3);
    for (i, line) in r.into_iter().enumerate() {
        match i {
            0 => {
                assert!(line == Line::Heading1("Level 1 heading".to_string()));
            }
            1 => {
                assert!(line == Line::Heading2("Level 2 heading".to_string()));
            }
            2 => {
                assert!(line == Line::Heading3("レベル 3 ヘディング".to_string()));
            }
            _ => assert!(false),
        }
    }
}

#[test]
fn document_parse_list_item() {
    let t = "* First item\n\
             * Second item\n\
             *This is not a list item\n\
             * これは new list";
    let r = parse_gemini_doc(&t);

    assert_eq!(r.len(), 4);
    for (i, line) in r.into_iter().enumerate() {
        match i {
            0 => {
                assert!(line == Line::ListItem("First item".to_string()));
            }
            1 => {
                assert!(line == Line::ListItem("Second item".to_string()));
            }
            2 => {
                assert!(line == Line::Text("*This is not a list item".to_string()));
            }
            3 => {
                assert!(line == Line::ListItem("これは new list".to_string()));
            }
            _ => assert!(false),
        }
    }
}

#[test]
fn document_parse_quote() {
    let t = ">2020\n\
             >quotes as standard\n\
             >  what about whitespace?\n\
             >錆";
    let r = parse_gemini_doc(&t);

    assert_eq!(r.len(), 4);
    for (i, line) in r.into_iter().enumerate() {
        match i {
            0 => {
                assert!(line == Line::Quote("2020".to_string()));
            }
            1 => {
                assert!(line == Line::Quote("quotes as standard".to_string()));
            }
            2 => {
                assert!(line == Line::Quote("  what about whitespace?".to_string()));
            }
            3 => {
                assert!(line == Line::Quote("錆".to_string()));
            }
            _ => assert!(false),
        }
    }
}

#[test]
fn gemini_mime() {
    let geminimime = "text/gemini";
    let other = "text/plain";

    assert_eq!(is_gemini_doc(geminimime), true);
    assert_eq!(is_gemini_doc(other), false);
}

#[test]
fn text_mime() {
    assert!(is_text_doc("text/plain"));
    assert!(is_text_doc("text/gemini; charset=utf-8"));
    assert!(is_gemini_doc("TEXT/Gemini"));
    assert!(!is_text_doc("image/png"));
    assert!(!is_text_doc("not a mime type"));
}

#[test]
fn document_heading_levels_and_edges() {
    let r = parse_gemini_doc("#### deep\n=>   \n\r\nplain\r\n");
    assert_eq!(r.len(), 4);
    assert!(r[0] == Line::Text("deep".to_string()));
    assert!(r[1] == Line::Text("=>   ".to_string()));
    assert!(r[2] == Line::Text("".to_string()));
    assert!(r[3] == Line::Text("plain".to_string()));
}

#[test]
fn document_unclosed_fence() {
    let r = parse_gemini_doc("```\n=> not a link\n# nor a heading");
    assert_eq!(r.len(), 2);
    assert!(r[0] == Line::Preformatted("=> not a link".to_string()));
    assert!(r[1] == Line::Preformatted("# nor a heading".to_string()));
}
