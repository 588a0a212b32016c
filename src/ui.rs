//! The user-interface controller as a state machine. It takes input events
//! and request outcomes and answers with the action the terminal side must
//! carry out; it never touches the terminal or the network itself.

use vstd::prelude::*;
use vstd::utf8::{decode_utf8, valid_utf8};
use crate::address::{link_target_spec, parse_gemini_link};
use crate::command::{Command, CommandSpec, parse_command, parse_command_spec, skip_digits, decimal_value};
use crate::container::{ContentContainer, gemini_lines_spec, text_lines_spec, scroll_limit, clamp_scroll};
use crate::document::{is_gemini_doc, is_text_doc, parse_gemini_doc, is_gemini_spec, is_text_spec, parse_doc_spec};
use crate::history::{GeminiHistory, TextPage, TextPageSpec, after_insert};
use crate::protocol::{ProtocolError, Response, StatusCode, decode_utf8_bytes, error_text, code_of, opt_view};
use crate::text::{chars_of, string_of, push_char, decimal_digits, decimal_string, skip_white};
use crate::unicode::{display_width, str_width};

verus! {

/// How many redirects in a row are followed before giving up.
pub const MAX_REDIRECTS: usize = 5;

/// What keys do in the current state.
#[derive(Clone, Copy, PartialEq, Eq, Debug, Structural)]
pub enum Mode {
    /// Keys scroll, navigate history, open the prompt or quit.
    Normal,
    /// Keys edit the command line.
    CommandInput,
    /// Waiting for `y` or `n` on following a redirect.
    YesNoPrompt,
}

/// A key press, as far as the controller distinguishes keys.
#[derive(Clone, Copy, PartialEq, Eq, Debug, Structural)]
pub enum Key {
    Char(char),
    Backspace,
    Enter,
    Esc,
    Other,
}

/// An input event.
#[derive(Clone, Copy, PartialEq, Eq, Debug, Structural)]
pub enum UiEvent {
    Key(Key),
    /// The terminal now has this many columns and rows.
    Resize(u16, u16),
}

/// What the terminal side has to do after an event.
#[derive(PartialEq, Debug)]
pub enum UiAction {
    Nothing,
    /// Draw the whole window again.
    Redraw,
    /// Show an empty command prompt with the cursor.
    OpenPrompt,
    /// Print this character at the prompt.
    Echo(char),
    /// Erase this many columns before the cursor at the prompt.
    Erase(usize),
    /// Show the question in the status line with the cursor.
    AskYesNo,
    /// Request this URL and hand the outcome to `on_response`.
    Fetch(String),
    /// End the session.
    Quit,
}

/// The controller's state: title and status lines, viewport, history, mode,
/// command being typed, redirect waiting for confirmation.
pub struct TextUI {
    top_line: String,
    container: ContentContainer,
    bottom_line: String,
    history: GeminiHistory,
    quit: bool,
    mode: Mode,
    command: String,
    pending_redirect: Option<String>,
    redirects: usize,
}

/// The viewport shows a page, scrolled to the origin.
pub open spec fn shows_page(c: ContentContainer, page: TextPageSpec) -> bool {
    &&& c.scroll_spec() == (0nat, 0nat)
    &&& match page {
        TextPageSpec::Gemini(doc) => (c.source_lines(), c.links_spec()) == gemini_lines_spec(doc),
        TextPageSpec::Plain(t) => c.source_lines() == text_lines_spec(t) && c.links_spec() == Seq::<Seq<char>>::empty(),
    }
}

/// Navigating to `url` from history `h` and viewport `c`: a cached page is
/// shown at once, anything else is requested; the history is unchanged.
pub open spec fn navigated(h: GeminiHistory, c: ContentContainer, url: Seq<char>, new: TextUI, a: UiAction) -> bool {
    &&& new.history_spec() == h
    &&& if h.cache_spec().contains_key(url) {
        a == UiAction::Redraw && shows_page(new.container_spec(), h.cache_spec()[url])
    } else {
        (a matches UiAction::Fetch(u) && u@ == url) && new.container_spec() == c
    }
}

/// Where a `go` target leads: resolved against the current page when that
/// works, else taken as it is.
pub open spec fn go_target(t: Seq<char>, current: Option<Seq<char>>) -> Seq<char> {
    match current {
        Some(cur) => match link_target_spec(t, cur) {
            Some(r) => r,
            None => t,
        },
        None => t,
    }
}

/// The current URL of a history, if any.
pub open spec fn current_url_of(h: GeminiHistory) -> Option<Seq<char>> {
    if h.urls().len() > 0 { Some(h.urls()[h.current_spec() as int]) } else { None }
}

/// Statuses that ask for a client certificate, which this client does not
/// offer.
pub open spec fn is_client_cert_status(st: StatusCode) -> bool {
    st == StatusCode::ClientCertRequired || st == StatusCode::CertNotAuthorized || st == StatusCode::CertNotValid
}

/// The status-line text for a response that is neither a success nor a
/// redirect: its code, then a note that client certificates are not yet
/// implemented for a certificate request, else its text if there is any.
pub open spec fn status_text(r: Response) -> Seq<char> {
    decimal_digits(code_of(r.status_spec()) as nat) + if is_client_cert_status(r.status_spec()) {
        " Client certificates are not yet implemented"@
    } else {
        match r.text_spec() {
            Some(t) => if t.len() > 0 { seq![' '] + t } else { Seq::empty() },
            None => Seq::empty(),
        }
    }
}

impl TextUI {
    pub closed spec fn container_spec(&self) -> ContentContainer {
        self.container
    }

    pub closed spec fn history_spec(&self) -> GeminiHistory {
        self.history
    }

    pub closed spec fn mode_spec(&self) -> Mode {
        self.mode
    }

    pub closed spec fn command_spec(&self) -> Seq<char> {
        self.command@
    }

    pub closed spec fn top_spec(&self) -> Seq<char> {
        self.top_line@
    }

    pub closed spec fn bottom_spec(&self) -> Seq<char> {
        self.bottom_line@
    }

    pub closed spec fn quit_spec(&self) -> bool {
        self.quit
    }

    pub closed spec fn pending_spec(&self) -> Option<Seq<char>> {
        opt_view(self.pending_redirect)
    }

    pub closed spec fn redirects_spec(&self) -> nat {
        self.redirects as nat
    }

    pub open spec fn wf(&self) -> bool {
        &&& self.container_spec().wf()
        &&& self.history_spec().wf()
        &&& (self.mode_spec() == Mode::YesNoPrompt <==> self.pending_spec() is Some)
        &&& self.redirects_spec() <= MAX_REDIRECTS
        &&& (self.mode_spec() == Mode::YesNoPrompt ==> self.redirects_spec() < MAX_REDIRECTS)
    }

    /// A controller for a terminal of `cols` by `rows` cells, with an empty
    /// page and history.
    pub fn new(cols: u16, rows: u16) -> (r: Self)
        ensures
            r.wf(),
            r.mode_spec() == Mode::Normal,
            !r.quit_spec(),
            r.history_spec().urls() == Seq::<Seq<char>>::empty(),
            r.container_spec().source_lines() == Seq::<(Seq<char>, bool)>::empty(),
            r.bottom_spec() == Seq::<char>::empty(),
    {
        TextUI {
            top_line: String::new(),
            container: ContentContainer::new(cols, rows),
            bottom_line: String::new(),
            history: GeminiHistory::new(),
            quit: false,
            mode: Mode::Normal,
            command: String::new(),
            pending_redirect: None,
            redirects: 0,
        }
    }

    /// The current mode.
    pub fn mode(&self) -> (r: Mode)
        ensures
            r == self.mode_spec(),
    {
        self.mode
    }

    /// Whether the session has ended.
    pub fn should_quit(&self) -> (r: bool)
        ensures
            r == self.quit_spec(),
    {
        self.quit
    }

    /// The title line.
    pub fn top_line(&self) -> (r: &String)
        ensures
            r@ == self.top_spec(),
    {
        &self.top_line
    }

    /// The status line.
    pub fn bottom_line(&self) -> (r: &String)
        ensures
            r@ == self.bottom_spec(),
    {
        &self.bottom_line
    }

    /// The command typed so far.
    pub fn command(&self) -> (r: &String)
        ensures
            r@ == self.command_spec(),
    {
        &self.command
    }

    /// The viewport.
    pub fn container(&self) -> (r: &ContentContainer)
        ensures
            *r == self.container_spec(),
    {
        &self.container
    }

    /// The navigation history.
    pub fn history(&self) -> (r: &GeminiHistory)
        ensures
            *r == self.history_spec(),
    {
        &self.history
    }
}

impl TextUI {
    /// Shows the page cached for `url`, or asks for it to be fetched.
    fn navigate(&mut self, url: &String) -> (a: UiAction)
        requires
            old(self).wf(),
        ensures
            final(self).wf(),
            navigated(old(self).history_spec(), old(self).container_spec(), url@, *final(self), a),
            final(self).mode_spec() == old(self).mode_spec(),
            final(self).bottom_spec() == old(self).bottom_spec(),
            final(self).command_spec() == old(self).command_spec(),
            final(self).quit_spec() == old(self).quit_spec(),
            final(self).pending_spec() == old(self).pending_spec(),
            final(self).redirects_spec() == old(self).redirects_spec(),
    {
        match self.history.get_from_cache(url) {
            Some(page) => {
                match page {
                    TextPage::Gemini(v) => self.container.set_contents_gemini(v),
                    TextPage::Plain(t) => self.container.set_contents_text(t.as_str()),
                }
                UiAction::Redraw
            },
            None => UiAction::Fetch(url.clone()),
        }
    }

    /// Takes the outcome of fetching `url`. A text page is shown and
    /// recorded in the history and cache; a redirect asks whether to follow
    /// it; anything else is reported in the status line.
    pub fn on_response(&mut self, url: &String, outcome: Result<Response, ProtocolError>) -> (a: UiAction)
        requires
            old(self).wf(),
        ensures
            final(self).wf(),
            final(self).quit_spec() == old(self).quit_spec(),
            final(self).command_spec() == old(self).command_spec(),
            match outcome {
                Err(e) => {
                    &&& a == UiAction::Redraw
                    &&& final(self).bottom_spec() == error_text(e)
                    &&& final(self).history_spec() == old(self).history_spec()
                    &&& final(self).container_spec() == old(self).container_spec()
                    &&& final(self).mode_spec() == Mode::Normal
                },
                Ok(Response::Success(mime, body)) => {
                    &&& a == UiAction::Redraw
                    &&& final(self).mode_spec() == Mode::Normal
                    &&& if !is_text_spec(mime@) {
                        &&& final(self).bottom_spec() == "Not a text document: '"@ + mime@ + "'"@
                        &&& final(self).history_spec() == old(self).history_spec()
                        &&& final(self).container_spec() == old(self).container_spec()
                    } else if !valid_utf8(body@) {
                        &&& final(self).bottom_spec() == "Page is not valid UTF-8"@
                        &&& final(self).history_spec() == old(self).history_spec()
                        &&& final(self).container_spec() == old(self).container_spec()
                    } else {
                        let page = if is_gemini_spec(mime@) {
                            TextPageSpec::Gemini(parse_doc_spec(decode_utf8(body@)))
                        } else {
                            TextPageSpec::Plain(decode_utf8(body@))
                        };
                        &&& final(self).history_spec().urls() == after_insert(
                            old(self).history_spec().urls(), old(self).history_spec().current_spec(), url@)
                        &&& final(self).history_spec().current_spec() == final(self).history_spec().urls().len() - 1
                        &&& final(self).history_spec().cache_spec() == old(self).history_spec().cache_spec().insert(url@, page)
                        &&& shows_page(final(self).container_spec(), page)
                        &&& final(self).bottom_spec() == old(self).bottom_spec()
                    }
                },
                Ok(Response::RedirectTemp(u)) | Ok(Response::RedirectPerm(u)) => {
                    &&& final(self).history_spec() == old(self).history_spec()
                    &&& final(self).container_spec() == old(self).container_spec()
                    &&& if old(self).redirects_spec() < MAX_REDIRECTS {
                        &&& a == UiAction::AskYesNo
                        &&& final(self).mode_spec() == Mode::YesNoPrompt
                        &&& final(self).pending_spec() == Some(u@)
                        &&& final(self).bottom_spec() == "Follow redirection? -> "@ + u@
                    } else {
                        &&& a == UiAction::Redraw
                        &&& final(self).mode_spec() == Mode::Normal
                        &&& final(self).bottom_spec() == "Too many redirects"@
                    }
                },
                Ok(r) => {
                    &&& a == UiAction::Redraw
                    &&& final(self).bottom_spec() == status_text(r)
                    &&& final(self).history_spec() == old(self).history_spec()
                    &&& final(self).container_spec() == old(self).container_spec()
                    &&& final(self).mode_spec() == Mode::Normal
                },
            },
    {
        self.mode = Mode::Normal;
        self.pending_redirect = None;
        match outcome {
            Err(e) => {
                self.bottom_line = e.message();
                UiAction::Redraw
            },
            Ok(Response::Success(mime, body)) => {
                if !is_text_doc(mime.as_str()) {
                    let mut m = String::from_str("Not a text document: '");
                    m.append(mime.as_str());
                    m.append("'");
                    self.bottom_line = m;
                    return UiAction::Redraw;
                }
                let text = match decode_utf8_bytes(body) {
                    Some(t) => t,
                    None => {
                        self.bottom_line = String::from_str("Page is not valid UTF-8");
                        return UiAction::Redraw;
                    },
                };
                if is_gemini_doc(mime.as_str()) {
                    let doc = parse_gemini_doc(text.as_str());
                    self.container.set_contents_gemini(&doc);
                    self.history.insert(url.clone(), TextPage::Gemini(doc));
                } else {
                    self.container.set_contents_text(text.as_str());
                    self.history.insert(url.clone(), TextPage::Plain(text));
                }
                UiAction::Redraw
            },
            Ok(Response::RedirectTemp(u)) | Ok(Response::RedirectPerm(u)) => {
                if self.redirects < MAX_REDIRECTS {
                    let mut q = String::from_str("Follow redirection? -> ");
                    q.append(u.as_str());
                    self.bottom_line = q;
                    self.pending_redirect = Some(u);
                    self.mode = Mode::YesNoPrompt;
                    UiAction::AskYesNo
                } else {
                    self.bottom_line = String::from_str("Too many redirects");
                    UiAction::Redraw
                }
            },
            Ok(r) => {
                let mut t = decimal_string(r.status().code() as usize);
                let ghost code_text = t@;
                proof { reveal_strlit(" "); }
                let st = r.status();
                if st == StatusCode::ClientCertRequired || st == StatusCode::CertNotAuthorized
                    || st == StatusCode::CertNotValid {
                    t.append(" Client certificates are not yet implemented");
                    self.bottom_line = t;
                    return UiAction::Redraw;
                }
                match r.text() {
                    Some(info) => {
                        if !info.as_str().is_empty() {
                            t.append(" ");
                            t.append(info.as_str());
                            assert(t@ =~= code_text + (seq![' '] + info@));
                        } else {
                            assert(t@ =~= code_text + Seq::<char>::empty());
                        }
                    },
                    None => {
                        assert(t@ =~= code_text + Seq::<char>::empty());
                    },
                }
                assert(t@ =~= status_text(r));
                self.bottom_line = t;
                UiAction::Redraw
            },
        }
    }
}

/// The status-line text after scrolling: `Scroll: <row>, <column>`.
pub open spec fn scroll_text(c: ContentContainer) -> Seq<char> {
    "Scroll: "@ + decimal_digits(c.scroll_spec().0) + ", "@ + decimal_digits(c.scroll_spec().1)
}

/// The scroll offsets after one step in the direction a key names: `h`
/// left, `l` right, `j` down, `k` up.
pub open spec fn scrolled(c: ContentContainer, key: char) -> (nat, nat) {
    let (r, col) = c.scroll_spec();
    if key == 'h' {
        (r, if col > 0 { (col - 1) as nat } else { 0 })
    } else if key == 'l' {
        (r, if col < scroll_limit(c.content_width_spec(), c.width_spec()) { col + 1 } else { col })
    } else if key == 'j' {
        (if r < scroll_limit(c.rows().len(), c.height_spec()) { r + 1 } else { r }, col)
    } else {
        (if r > 0 { (r - 1) as nat } else { 0 }, col)
    }
}

pub open spec fn is_scroll_key(c: char) -> bool {
    c == 'h' || c == 'l' || c == 'j' || c == 'k'
}

/// Nothing changes but what is named.
pub open spec fn same_page(old: TextUI, new: TextUI) -> bool {
    new.history_spec() == old.history_spec() && new.container_spec() == old.container_spec()
}

/// Moving through the history with `b` (back) or `f` (forward): when the
/// position moved and there is a current URL, its page is navigated to.
pub open spec fn history_step_post(old: TextUI, new: TextUI, back: bool, a: UiAction) -> bool {
    let h = old.history_spec();
    let moved = if back { h.current_spec() > 0 } else { h.current_spec() + 1 < h.urls().len() };
    let cur: int = if back { h.current_spec() - 1 } else { h.current_spec() + 1 as int };
    &&& new.mode_spec() == Mode::Normal
    &&& new.bottom_spec() == old.bottom_spec()
    &&& if moved {
        &&& new.history_spec().urls() == h.urls()
        &&& new.history_spec().cache_spec() == h.cache_spec()
        &&& new.history_spec().current_spec() == cur
        &&& new.redirects_spec() == 0
        &&& if h.cache_spec().contains_key(h.urls()[cur]) {
            a == UiAction::Redraw && shows_page(new.container_spec(), h.cache_spec()[h.urls()[cur]])
        } else {
            (a matches UiAction::Fetch(u) && u@ == h.urls()[cur]) && new.container_spec() == old.container_spec()
        }
    } else {
        a == UiAction::Nothing && same_page(old, new)
    }
}

/// A key in normal mode.
pub open spec fn normal_key_post(old: TextUI, new: TextUI, k: Key, a: UiAction) -> bool {
    &&& new.quit_spec() == (old.quit_spec() || k == Key::Esc)
    &&& match k {
        Key::Char(c) => if is_scroll_key(c) {
            &&& a == UiAction::Redraw
            &&& new.mode_spec() == Mode::Normal
            &&& new.history_spec() == old.history_spec()
            &&& new.container_spec().rows() == old.container_spec().rows()
            &&& new.container_spec().source_lines() == old.container_spec().source_lines()
            &&& new.container_spec().links_spec() == old.container_spec().links_spec()
            &&& new.container_spec().scroll_spec() == scrolled(old.container_spec(), c)
            &&& new.bottom_spec() == scroll_text(new.container_spec())
        } else if c == ' ' {
            &&& a == UiAction::OpenPrompt
            &&& new.mode_spec() == Mode::CommandInput
            &&& new.command_spec() == Seq::<char>::empty()
            &&& same_page(old, new)
        } else if c == 'b' {
            history_step_post(old, new, true, a)
        } else if c == 'f' {
            history_step_post(old, new, false, a)
        } else {
            a == UiAction::Nothing && same_page(old, new) && new.mode_spec() == Mode::Normal
        },
        Key::Esc => a == UiAction::Quit && same_page(old, new),
        _ => a == UiAction::Nothing && same_page(old, new) && new.mode_spec() == Mode::Normal,
    }
}

/// Submitting a command line `cmd`.
pub open spec fn submit_post(old: TextUI, new: TextUI, cmd: Seq<char>, a: UiAction) -> bool {
    let h = old.history_spec();
    let c = old.container_spec();
    &&& new.mode_spec() == Mode::Normal
    &&& new.command_spec() == Seq::<char>::empty()
    &&& new.quit_spec() == (old.quit_spec() || parse_command_spec(cmd) == Some(CommandSpec::Quit))
    &&& match parse_command_spec(cmd) {
        None => a == UiAction::Redraw && same_page(old, new) && new.bottom_spec() == old.bottom_spec(),
        Some(CommandSpec::Quit) => a == UiAction::Quit && same_page(old, new),
        Some(CommandSpec::Unknown(w)) => {
            &&& a == UiAction::Redraw
            &&& same_page(old, new)
            &&& new.bottom_spec() == "Unknown command: "@ + w
        },
        Some(CommandSpec::Go(t)) => {
            &&& navigated(h, c, go_target(t, current_url_of(h)), new, a)
            &&& new.redirects_spec() == 0
            &&& new.bottom_spec() == old.bottom_spec()
        },
        Some(CommandSpec::Link(n)) => if 1 <= n <= c.links_spec().len() {
            let u = c.links_spec()[n - 1];
            let base = match current_url_of(h) { Some(b) => b, None => Seq::empty() };
            match link_target_spec(u, base) {
                Some(target) => {
                    &&& navigated(h, c, target, new, a)
                    &&& new.redirects_spec() == 0
                    &&& new.bottom_spec() == "Following link "@ + decimal_digits(n) + " to "@ + u
                },
                None => a == UiAction::Redraw && same_page(old, new) && new.bottom_spec() == "Could not parse URL"@,
            }
        } else {
            a == UiAction::Redraw && same_page(old, new) && new.bottom_spec() == old.bottom_spec()
        },
    }
}

/// A key while the command line is edited.
pub open spec fn command_key_post(old: TextUI, new: TextUI, k: Key, a: UiAction) -> bool {
    let cmd = old.command_spec();
    match k {
        Key::Char(c) => {
            &&& a == UiAction::Echo(c)
            &&& new.command_spec() == cmd.push(c)
            &&& new.mode_spec() == Mode::CommandInput
            &&& same_page(old, new)
            &&& new.quit_spec() == old.quit_spec()
        },
        Key::Backspace => {
            &&& new.mode_spec() == Mode::CommandInput
            &&& same_page(old, new)
            &&& new.quit_spec() == old.quit_spec()
            &&& if cmd.len() > 0 {
                &&& new.command_spec() == cmd.drop_last()
                &&& a matches UiAction::Erase(w) && w == display_width(seq![cmd.last()])
            } else {
                &&& new.command_spec() == cmd
                &&& a == UiAction::Nothing
            }
        },
        Key::Enter => submit_post(old, new, cmd, a),
        Key::Esc => submit_post(old, new, Seq::empty(), a),
        Key::Other => {
            &&& a == UiAction::Nothing
            &&& new.command_spec() == cmd
            &&& new.mode_spec() == Mode::CommandInput
            &&& same_page(old, new)
            &&& new.quit_spec() == old.quit_spec()
        },
    }
}

/// A key while asked whether to follow a redirect: `y` follows it, `n` or
/// Esc declines; other keys are ignored.
pub open spec fn yes_no_key_post(old: TextUI, new: TextUI, k: Key, a: UiAction) -> bool {
    &&& new.quit_spec() == old.quit_spec()
    &&& if k == Key::Char('y') {
        &&& new.mode_spec() == Mode::Normal
        &&& new.bottom_spec() == Seq::<char>::empty()
        &&& new.redirects_spec() == old.redirects_spec() + 1
        &&& navigated(old.history_spec(), old.container_spec(), old.pending_spec()->0, new, a)
    } else if k == Key::Char('n') || k == Key::Esc {
        &&& a == UiAction::Redraw
        &&& new.mode_spec() == Mode::Normal
        &&& new.bottom_spec() == Seq::<char>::empty()
        &&& same_page(old, new)
    } else {
        a == UiAction::Nothing && same_page(old, new) && new.mode_spec() == Mode::YesNoPrompt
    }
}

impl TextUI {
    /// Parses the command line and acts on it.
    fn submit_command(&mut self) -> (a: UiAction)
        requires
            old(self).wf(),
        ensures
            final(self).wf(),
            submit_post(*old(self), *final(self), old(self).command_spec(), a),
    {
        let cmd = self.command.clone();
        self.command = String::new();
        self.mode = Mode::Normal;
        self.pending_redirect = None;
        match parse_command(cmd.as_str()) {
            None => UiAction::Redraw,
            Some(Command::Quit) => {
                self.quit = true;
                UiAction::Quit
            },
            Some(Command::Unknown(w)) => {
                let mut m = String::from_str("Unknown command: ");
                m.append(w.as_str());
                self.bottom_line = m;
                UiAction::Redraw
            },
            Some(Command::Go(t)) => {
                let target = match self.history.get_current_url() {
                    Some(cur) => match parse_gemini_link(t.as_str(), cur.as_str()) {
                        Some(r) => r,
                        None => t,
                    },
                    None => t,
                };
                self.redirects = 0;
                self.navigate(&target)
            },
            Some(Command::Link(n)) => {
                match self.container.link(n) {
                    Some(u) => {
                        let base = match self.history.get_current_url() {
                            Some(b) => b,
                            None => String::new(),
                        };
                        match parse_gemini_link(u.as_str(), base.as_str()) {
                            Some(target) => {
                                let mut m = String::from_str("Following link ");
                                m.append(decimal_string(n).as_str());
                                m.append(" to ");
                                m.append(u.as_str());
                                self.bottom_line = m;
                                self.redirects = 0;
                                self.navigate(&target)
                            },
                            None => {
                                self.bottom_line = String::from_str("Could not parse URL");
                                UiAction::Redraw
                            },
                        }
                    },
                    None => UiAction::Redraw,
                }
            },
        }
    }

    /// Moves back or forward in the history and shows the page there.
    fn history_step(&mut self, back: bool) -> (a: UiAction)
        requires
            old(self).wf(),
            old(self).mode_spec() == Mode::Normal,
        ensures
            final(self).wf(),
            history_step_post(*old(self), *final(self), back, a),
            final(self).quit_spec() == old(self).quit_spec(),
    {
        proof { self.history.lemma_current_valid(); }
        let moved = if back { self.history.go_back() } else { self.history.go_forwards() };
        proof { self.history.lemma_current_valid(); }
        if !moved {
            return UiAction::Nothing;
        }
        self.redirects = 0;
        match self.history.get_current_url() {
            Some(url) => self.navigate(&url),
            None => UiAction::Nothing,
        }
    }

    fn set_scroll_text(&mut self)
        ensures
            final(self).bottom_spec() == scroll_text(old(self).container_spec()),
            final(self).container_spec() == old(self).container_spec(),
            final(self).history_spec() == old(self).history_spec(),
            final(self).mode_spec() == old(self).mode_spec(),
            final(self).quit_spec() == old(self).quit_spec(),
            final(self).command_spec() == old(self).command_spec(),
            final(self).pending_spec() == old(self).pending_spec(),
            final(self).redirects_spec() == old(self).redirects_spec(),
    {
        let (r, c) = self.container.scroll_pos();
        let mut t = String::from_str("Scroll: ");
        t.append(decimal_string(r).as_str());
        t.append(", ");
        t.append(decimal_string(c).as_str());
        self.bottom_line = t;
    }

    fn normal_key(&mut self, k: Key) -> (a: UiAction)
        requires
            old(self).wf(),
            old(self).mode_spec() == Mode::Normal,
        ensures
            final(self).wf(),
            normal_key_post(*old(self), *final(self), k, a),
    {
        match k {
            Key::Char(c) => {
                if c == 'h' {
                    self.container.scroll_left();
                } else if c == 'l' {
                    self.container.scroll_right();
                } else if c == 'j' {
                    self.container.scroll_down();
                } else if c == 'k' {
                    self.container.scroll_up();
                } else if c == ' ' {
                    self.command = String::new();
                    self.mode = Mode::CommandInput;
                    return UiAction::OpenPrompt;
                } else if c == 'b' {
                    return self.history_step(true);
                } else if c == 'f' {
                    return self.history_step(false);
                } else {
                    return UiAction::Nothing;
                }
                self.set_scroll_text();
                UiAction::Redraw
            },
            Key::Esc => {
                self.quit = true;
                UiAction::Quit
            },
            _ => UiAction::Nothing,
        }
    }

    fn command_key(&mut self, k: Key) -> (a: UiAction)
        requires
            old(self).wf(),
            old(self).mode_spec() == Mode::CommandInput,
        ensures
            final(self).wf(),
            command_key_post(*old(self), *final(self), k, a),
    {
        match k {
            Key::Char(c) => {
                push_char(&mut self.command, c);
                UiAction::Echo(c)
            },
            Key::Backspace => {
                let cs = chars_of(self.command.as_str());
                let n = cs.len();
                if n == 0 {
                    return UiAction::Nothing;
                }
                let mut last = String::new();
                push_char(&mut last, cs[n - 1]);
                assert(last@ =~= seq![cs@[n - 1]]);
                let w = str_width(last.as_str());
                self.command = string_of(&cs, 0, n - 1);
                assert(cs@.subrange(0, n - 1) =~= cs@.drop_last());
                UiAction::Erase(w)
            },
            Key::Enter => self.submit_command(),
            Key::Esc => {
                self.command = String::new();
                self.submit_command()
            },
            Key::Other => UiAction::Nothing,
        }
    }

    fn yes_no_key(&mut self, k: Key) -> (a: UiAction)
        requires
            old(self).wf(),
            old(self).mode_spec() == Mode::YesNoPrompt,
        ensures
            final(self).wf(),
            yes_no_key_post(*old(self), *final(self), k, a),
    {
        if k == Key::Char('y') {
            let target = match self.pending_redirect.take() {
                Some(u) => u,
                None => String::new(),
            };
            self.mode = Mode::Normal;
            self.bottom_line = String::new();
            self.redirects = self.redirects + 1;
            self.navigate(&target)
        } else if k == Key::Char('n') || k == Key::Esc {
            self.pending_redirect = None;
            self.mode = Mode::Normal;
            self.bottom_line = String::new();
            UiAction::Redraw
        } else {
            UiAction::Nothing
        }
    }
}

/// A resize: the viewport adapts to the new size and the scroll position is
/// reported.
pub open spec fn resize_post(old: TextUI, new: TextUI, w: u16, h: u16, a: UiAction) -> bool {
    let c = old.container_spec();
    let n = new.container_spec();
    &&& a == UiAction::Redraw
    &&& n.source_lines() == c.source_lines()
    &&& n.links_spec() == c.links_spec()
    &&& n.width_spec() == scroll_limit(w as nat, c.margins_spec().2 + c.margins_spec().3)
    &&& n.height_spec() == scroll_limit(h as nat, c.margins_spec().0 + c.margins_spec().1)
    &&& n.scroll_spec() == clamp_scroll(c.scroll_spec(), n)
    &&& new.bottom_spec() == scroll_text(n)
    &&& new.history_spec() == old.history_spec()
    &&& new.mode_spec() == old.mode_spec()
    &&& new.command_spec() == old.command_spec()
    &&& new.quit_spec() == old.quit_spec()
}

impl TextUI {
    /// Takes one input event and tells what the terminal side must do.
    pub fn handle_event(&mut self, ev: UiEvent) -> (a: UiAction)
        requires
            old(self).wf(),
        ensures
            final(self).wf(),
            match ev {
                UiEvent::Resize(w, h) => resize_post(*old(self), *final(self), w, h, a),
                UiEvent::Key(k) => match old(self).mode_spec() {
                    Mode::Normal => normal_key_post(*old(self), *final(self), k, a),
                    Mode::CommandInput => command_key_post(*old(self), *final(self), k, a),
                    Mode::YesNoPrompt => yes_no_key_post(*old(self), *final(self), k, a),
                },
            },
    {
        match ev {
            UiEvent::Resize(w, h) => {
                self.container.resize(w, h);
                self.set_scroll_text();
                UiAction::Redraw
            },
            UiEvent::Key(k) => match self.mode {
                Mode::Normal => self.normal_key(k),
                Mode::CommandInput => self.command_key(k),
                Mode::YesNoPrompt => self.yes_no_key(k),
            },
        }
    }

    /// The rows in view, cut to the visible columns.
    pub fn visible_rows(&self) -> (r: Vec<String>)
        ensures
            r@.len() == crate::container::visible_count(
                self.container_spec().rows().len(), self.container_spec().scroll_spec().0,
                self.container_spec().height_spec()),
            forall|i: int| 0 <= i < r@.len() ==> #[trigger] r@[i]@ == crate::container::trim_row(
                self.container_spec().rows()[self.container_spec().scroll_spec().0 + i],
                self.container_spec().scroll_spec().1, self.container_spec().width_spec()),
    {
        self.container.visible_rows()
    }
}

/// The URL a link is resolved against: the current page, or nothing.
pub open spec fn link_base(h: GeminiHistory) -> Seq<char> {
    match current_url_of(h) {
        Some(b) => b,
        None => Seq::empty(),
    }
}

/// Following a link: submitting the command `1` while the page shows at
/// least one link navigates to the first link resolved against the current
/// page's URL (shown from the cache if it is there, else requested).
pub proof fn selecting_first_link(old: TextUI, new: TextUI, a: UiAction)
    requires
        old.command_spec() == seq!['1'],
        old.container_spec().links_spec().len() >= 1,
        link_target_spec(old.container_spec().links_spec()[0], link_base(old.history_spec())) is Some,
        command_key_post(old, new, Key::Enter, a),
    ensures
        navigated(
            old.history_spec(),
            old.container_spec(),
            link_target_spec(old.container_spec().links_spec()[0], link_base(old.history_spec()))->0,
            new,
            a,
        ),
{
    let s = seq!['1'];
    reveal_with_fuel(skip_white, 2);
    reveal_with_fuel(skip_digits, 2);
    reveal_with_fuel(decimal_value, 2);
    assert(skip_white(s, 0) == 0);
    assert(skip_digits(s, 0) == 1);
    assert(skip_white(s, 1) == 1);
    assert(s.subrange(0, 1) =~= s);
    assert(s.drop_last() =~= Seq::<char>::empty());
    assert(decimal_value(s) == 1);
    assert(parse_command_spec(s) == Some(CommandSpec::Link(1)));
}

/// A page that was fetched and recorded becomes the current page.
pub proof fn recorded_page_is_current(old: GeminiHistory, new: GeminiHistory, url: Seq<char>)
    requires
        old.wf(),
        new.urls() == after_insert(old.urls(), old.current_spec(), url),
        new.current_spec() == new.urls().len() - 1,
    ensures
        current_url_of(new) == Some(url),
{
    old.lemma_current_valid();
}

} // verus!
