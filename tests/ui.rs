use ruostepurkki::protocol::{ProtocolError, Response};
use ruostepurkki::ui::{Key, Mode, TextUI, UiAction, UiEvent};

fn key(ui: &mut TextUI, c: char) -> UiAction {
    ui.handle_event(UiEvent::Key(Key::Char(c)))
}

fn type_command(ui: &mut TextUI, cmd: &str) -> UiAction {
    assert_eq!(key(ui, ' '), UiAction::OpenPrompt);
    for c in cmd.chars() {
        assert_eq!(key(ui, c), UiAction::Echo(c));
    }
    ui.handle_event(UiEvent::Key(Key::Enter))
}

fn success(mime: &str, body: &str) -> Result<Response, ProtocolError> {
    Ok(Response::Success(mime.to_string(), body.as_bytes().to_vec()))
}

#[test]
fn end_to_end_page_and_link() {
    let mut ui = TextUI::new(12, 10);
    let url = "gemini://example.com/dir/index.gmi".to_string();
    assert_eq!(type_command(&mut ui, "go gemini://example.com/dir/index.gmi"), UiAction::Fetch(url.clone()));
    let body = "# Hi\n```\n   preformatted text that is long\n```\n=> other.gmi Other\n";
    assert_eq!(ui.on_response(&url, success("text/gemini", body)), UiAction::Redraw);
    let rows = ui.container().rendered_rows().clone();
    assert_eq!(rows, vec!["Hi", "   preformatted text that is long", "[1] => Other"]);
    assert_eq!(ui.history().get_current_url(), Some(url.clone()));
    assert_eq!(
        type_command(&mut ui, "1"),
        UiAction::Fetch("gemini://example.com/dir/other.gmi".to_string())
    );
    assert_eq!(ui.bottom_line(), "Following link 1 to other.gmi");
    assert_eq!(type_command(&mut ui, "go index.gmi"), UiAction::Redraw);
}

#[test]
fn redirect_asks_before_following() {
    let mut ui = TextUI::new(40, 10);
    let url = "gemini://a/".to_string();
    let r = ui.on_response(&url, Ok(Response::RedirectTemp("gemini://b/".to_string())));
    assert_eq!(r, UiAction::AskYesNo);
    assert_eq!(ui.mode(), Mode::YesNoPrompt);
    assert_eq!(ui.bottom_line(), "Follow redirection? -> gemini://b/");
    assert_eq!(key(&mut ui, 'x'), UiAction::Nothing);
    assert_eq!(key(&mut ui, 'y'), UiAction::Fetch("gemini://b/".to_string()));
    assert_eq!(ui.mode(), Mode::Normal);
    let r = ui.on_response(&url, Ok(Response::RedirectPerm("gemini://c/".to_string())));
    assert_eq!(r, UiAction::AskYesNo);
    assert_eq!(ui.handle_event(UiEvent::Key(Key::Esc)), UiAction::Redraw);
    assert_eq!(ui.mode(), Mode::Normal);
}

#[test]
fn redirect_loop_is_capped() {
    let mut ui = TextUI::new(40, 10);
    let url = "gemini://loop/".to_string();
    for _ in 0..5 {
        assert_eq!(ui.on_response(&url, Ok(Response::RedirectTemp(url.clone()))), UiAction::AskYesNo);
        assert_eq!(key(&mut ui, 'y'), UiAction::Fetch(url.clone()));
    }
    assert_eq!(ui.on_response(&url, Ok(Response::RedirectTemp(url.clone()))), UiAction::Redraw);
    assert_eq!(ui.bottom_line(), "Too many redirects");
}

#[test]
fn failures_go_to_status_line() {
    let mut ui = TextUI::new(40, 10);
    let url = "gemini://a/".to_string();
    assert_eq!(ui.on_response(&url, Err(ProtocolError::UnknownStatus(77))), UiAction::Redraw);
    assert_eq!(ui.bottom_line(), "Status code 77 not known");
    ui.on_response(&url, Ok(Response::NotFound(Some("nothing here".to_string()))));
    assert_eq!(ui.bottom_line(), "51 nothing here");
    ui.on_response(&url, Ok(Response::ClientCertRequired(Some("who are you".to_string()))));
    assert_eq!(ui.bottom_line(), "60 Client certificates are not yet implemented");
    ui.on_response(&url, success("image/png", ""));
    assert_eq!(ui.bottom_line(), "Not a text document: 'image/png'");
    assert_eq!(ui.history().get_current_url(), None);
    assert_eq!(ui.on_response(&url, Ok(Response::Success("text/plain".to_string(), vec![0xff]))), UiAction::Redraw);
    assert_eq!(ui.bottom_line(), "Page is not valid UTF-8");
}

#[test]
fn unknown_command_and_quit() {
    let mut ui = TextUI::new(40, 10);
    assert_eq!(type_command(&mut ui, "not a command"), UiAction::Redraw);
    assert_eq!(ui.bottom_line(), "Unknown command: not");
    assert!(!ui.should_quit());
    assert_eq!(type_command(&mut ui, " q "), UiAction::Quit);
    assert!(ui.should_quit());
}

#[test]
fn line_editor_erases_by_width() {
    let mut ui = TextUI::new(40, 10);
    key(&mut ui, ' ');
    assert_eq!(key(&mut ui, 'a'), UiAction::Echo('a'));
    assert_eq!(key(&mut ui, '日'), UiAction::Echo('日'));
    assert_eq!(ui.handle_event(UiEvent::Key(Key::Backspace)), UiAction::Erase(2));
    assert_eq!(ui.handle_event(UiEvent::Key(Key::Backspace)), UiAction::Erase(1));
    assert_eq!(ui.handle_event(UiEvent::Key(Key::Backspace)), UiAction::Nothing);
    assert_eq!(ui.command(), "");
    assert_eq!(ui.handle_event(UiEvent::Key(Key::Esc)), UiAction::Redraw);
    assert_eq!(ui.mode(), Mode::Normal);
}

#[test]
fn history_keys_use_cache() {
    let mut ui = TextUI::new(40, 10);
    let a = "gemini://a/".to_string();
    let b = "gemini://b/".to_string();
    ui.on_response(&a, success("text/plain", "page a"));
    ui.on_response(&b, success("text/plain", "page b"));
    assert_eq!(ui.visible_rows(), vec!["page b"]);
    assert_eq!(key(&mut ui, 'b'), UiAction::Redraw);
    assert_eq!(ui.visible_rows(), vec!["page a"]);
    assert_eq!(key(&mut ui, 'b'), UiAction::Nothing);
    assert_eq!(key(&mut ui, 'f'), UiAction::Redraw);
    assert_eq!(ui.visible_rows(), vec!["page b"]);
}

#[test]
fn scroll_keys_and_resize_report_position() {
    let mut ui = TextUI::new(5, 4);
    ui.on_response(&"gemini://a/".to_string(), success("text/plain", "1\n2\n3\n4\n5\n6"));
    assert_eq!(key(&mut ui, 'j'), UiAction::Redraw);
    assert_eq!(ui.bottom_line(), "Scroll: 1, 0");
    assert_eq!(key(&mut ui, 'k'), UiAction::Redraw);
    assert_eq!(ui.bottom_line(), "Scroll: 0, 0");
    assert_eq!(ui.handle_event(UiEvent::Resize(20, 20)), UiAction::Redraw);
    assert_eq!(ui.bottom_line(), "Scroll: 0, 0");
    assert_eq!(ui.handle_event(UiEvent::Key(Key::Esc)), UiAction::Quit);
}
