//! Key dispatch: one key press moves the session to its next state and names
//! the outside work, if any, that the caller performs next.

use vstd::prelude::*;
use crate::model::{first_match, items_view, opt_text, upserted, FeedItem};
use crate::session::{deleted, fitted_selection, moved, App, FetchPurpose, Focus, Mode, PAGE_JUMP};
use crate::text::{is_white, lemma_trimmed_clean, pop_char, push_char, trim_text, trimmed};

verus! {

/// The logical key of a key press.
#[derive(Clone, Copy, Debug, PartialEq, Eq, Structural)]
pub enum KeyCode {
    Char(char),
    Enter,
    Esc,
    Backspace,
    Tab,
    Left,
    Right,
    Up,
    Down,
    PageUp,
    PageDown,
    Other,
}

/// A key press, with whether Control was held.
#[derive(Clone, Copy, Debug, PartialEq, Eq, Structural)]
pub struct KeyEvent {
    pub code: KeyCode,
    pub ctrl: bool,
}

/// What the caller does after a key press.
#[derive(Debug)]
pub enum Command {
    /// Nothing: draw and wait for the next key.
    Continue,
    /// End the session.
    Quit,
    /// Fetch the feed at the URL, then hand the outcome to `App::apply_fetch`.
    Fetch(String, FetchPurpose),
    /// The collection changed: write it to storage.
    Save,
}

/// The URL and purpose of a fetch request.
pub open spec fn fetch_request(c: Command) -> Option<(Seq<char>, FetchPurpose)> {
    match c {
        Command::Fetch(u, p) => Some((u@, p)),
        _ => None,
    }
}

/// Collection and selections are as they were.
pub open spec fn keeps_selection(pre: App, post: App) -> bool {
    &&& post.db == pre.db
    &&& post.feed_selected == pre.feed_selected
    &&& post.item_selected == pre.item_selected
}

/// Only the status changed, to `status`.
pub open spec fn status_only(pre: App, post: App, status: Seq<char>) -> bool {
    &&& keeps_selection(pre, post)
    &&& post.focus == pre.focus
    &&& post.mode == pre.mode
    &&& post.input == pre.input
    &&& post.status@ == status
}

/// A key press while a URL is being entered.
pub open spec fn add_url_step(pre: App, post: App, key: KeyEvent, cmd: Command) -> bool {
    match key.code {
        KeyCode::Esc => {
            &&& keeps_selection(pre, post)
            &&& post.focus == pre.focus
            &&& post.mode == Mode::Normal
            &&& post.input@.len() == 0
            &&& post.status@ == "Add cancelled."@
            &&& cmd == Command::Continue
        },
        KeyCode::Enter => {
            let url = trimmed(pre.input@);
            &&& keeps_selection(pre, post)
            &&& post.focus == pre.focus
            &&& post.mode == Mode::Normal
            &&& post.input@.len() == 0
            &&& if url.len() == 0 {
                &&& post.status@ == "URL cannot be empty."@
                &&& cmd == Command::Continue
            } else {
                &&& post.status == pre.status
                &&& fetch_request(cmd) == Some((url, FetchPurpose::Add))
            }
        },
        KeyCode::Backspace => {
            &&& keeps_selection(pre, post)
            &&& post.focus == pre.focus
            &&& post.mode == pre.mode
            &&& post.status == pre.status
            &&& post.input@ == (if pre.input@.len() == 0 {
                pre.input@
            } else {
                pre.input@.drop_last()
            })
            &&& cmd == Command::Continue
        },
        KeyCode::Char(c) => {
            &&& keeps_selection(pre, post)
            &&& post.focus == pre.focus
            &&& post.mode == pre.mode
            &&& post.status == pre.status
            &&& post.input@ == (if key.ctrl {
                pre.input@
            } else {
                pre.input@.push(c)
            })
            &&& cmd == Command::Continue
        },
        _ => post == pre && cmd == Command::Continue,
    }
}

/// Refresh: a fetch of the selected real feed's URL, or a status asking for
/// one to be selected.
pub open spec fn refresh_step(pre: App, post: App, cmd: Command) -> bool {
    if 1 <= pre.feed_selected <= pre.db@.len() {
        post == pre && fetch_request(cmd) == Some(
            (pre.db@[pre.feed_selected - 1].url, FetchPurpose::Refresh),
        )
    } else {
        status_only(pre, post, "Select a feed to refresh."@) && cmd == Command::Continue
    }
}

/// Delete: the selected real feed removed and a save asked for, or a status
/// asking for one to be selected.
pub open spec fn delete_step(pre: App, post: App, cmd: Command) -> bool {
    if pre.feed_selected == 0 {
        status_only(pre, post, "Select a feed to delete."@) && cmd == Command::Continue
    } else {
        &&& deleted(pre, post)
        &&& post.status@ == "Removed "@ + pre.db@[pre.feed_selected - 1].url
        &&& cmd == Command::Save
    }
}

/// A move of the focused pane's selection, asking for nothing.
pub open spec fn move_step(pre: App, post: App, delta: int, cmd: Command) -> bool {
    moved(pre, post, delta) && cmd == Command::Continue
}

/// Only the focus changed, to `focus`.
pub open spec fn focus_step(pre: App, post: App, focus: Focus, cmd: Command) -> bool {
    &&& keeps_selection(pre, post)
    &&& post.focus == focus
    &&& post.mode == pre.mode
    &&& post.input == pre.input
    &&& post.status == pre.status
    &&& cmd == Command::Continue
}

/// A key press in normal mode.
pub open spec fn normal_step(pre: App, post: App, key: KeyEvent, cmd: Command) -> bool {
    match key.code {
        KeyCode::Esc => post == pre && cmd == Command::Quit,
        KeyCode::Char(c) => if c == 'q' {
            post == pre && cmd == Command::Quit
        } else if c == 'a' {
            &&& keeps_selection(pre, post)
            &&& post.focus == pre.focus
            &&& post.mode == Mode::AddUrl
            &&& post.input@.len() == 0
            &&& post.status@ == "Enter feed URL."@
            &&& cmd == Command::Continue
        } else if c == 'r' {
            refresh_step(pre, post, cmd)
        } else if c == 'd' {
            delete_step(pre, post, cmd)
        } else if c == 'k' {
            move_step(pre, post, -1, cmd)
        } else if c == 'j' {
            move_step(pre, post, 1, cmd)
        } else {
            post == pre && cmd == Command::Continue
        },
        KeyCode::Tab => focus_step(pre, post, Focus::Items, cmd),
        KeyCode::Right => focus_step(pre, post, Focus::Items, cmd),
        KeyCode::Left => focus_step(pre, post, Focus::Feeds, cmd),
        KeyCode::Up => move_step(pre, post, -1, cmd),
        KeyCode::Down => move_step(pre, post, 1, cmd),
        KeyCode::PageUp => move_step(pre, post, -PAGE_JUMP, cmd),
        KeyCode::PageDown => move_step(pre, post, PAGE_JUMP as int, cmd),
        _ => post == pre && cmd == Command::Continue,
    }
}

/// Enter on a URL with no surrounding white space asks for that very URL to
/// be fetched for adding, and returns to normal mode with the collection and
/// selections untouched.
pub proof fn lemma_enter_clean_url(pre: App, post: App, key: KeyEvent, cmd: Command)
    requires
        key.code == KeyCode::Enter,
        add_url_step(pre, post, key, cmd),
        pre.input@.len() > 0,
        !is_white(pre.input@[0]),
        !is_white(pre.input@.last()),
    ensures
        fetch_request(cmd) == Some((pre.input@, FetchPurpose::Add)),
        post.mode == Mode::Normal,
        keeps_selection(pre, post),
{
    lemma_trimmed_clean(pre.input@);
}

impl App {
    /// Handles one key press in the current mode.
    pub fn handle_key(&mut self, key: KeyEvent) -> (r: Command)
        requires
            old(self).wf(),
        ensures
            final(self).wf(),
            old(self).mode == Mode::AddUrl ==> add_url_step(*old(self), *final(self), key, r),
            old(self).mode == Mode::Normal ==> normal_step(*old(self), *final(self), key, r),
    {
        match self.mode {
            Mode::AddUrl => self.handle_add_url(key),
            Mode::Normal => self.handle_normal(key),
        }
    }

    /// Handles a key press while a URL is being entered.
    pub fn handle_add_url(&mut self, key: KeyEvent) -> (r: Command)
        requires
            old(self).wf(),
        ensures
            final(self).wf(),
            add_url_step(*old(self), *final(self), key, r),
    {
        match key.code {
            KeyCode::Esc => {
                self.mode = Mode::Normal;
                self.input = String::new();
                self.status = String::from_str("Add cancelled.");
                Command::Continue
            },
            KeyCode::Enter => {
                let url = String::from_str(trim_text(self.input.as_str()));
                self.input = String::new();
                self.mode = Mode::Normal;
                if url.as_str().is_empty() {
                    self.status = String::from_str("URL cannot be empty.");
                    Command::Continue
                } else {
                    Command::Fetch(url, FetchPurpose::Add)
                }
            },
            KeyCode::Backspace => {
                pop_char(&mut self.input);
                Command::Continue
            },
            KeyCode::Char(c) => {
                if !key.ctrl {
                    push_char(&mut self.input, c);
                }
                Command::Continue
            },
            _ => Command::Continue,
        }
    }

    /// Handles a key press in normal mode.
    pub fn handle_normal(&mut self, key: KeyEvent) -> (r: Command)
        requires
            old(self).wf(),
        ensures
            final(self).wf(),
            normal_step(*old(self), *final(self), key, r),
    {
        match key.code {
            KeyCode::Esc => Command::Quit,
            KeyCode::Char(c) => {
                if c == 'q' {
                    Command::Quit
                } else if c == 'a' {
                    self.mode = Mode::AddUrl;
                    self.input = String::new();
                    self.status = String::from_str("Enter feed URL.");
                    Command::Continue
                } else if c == 'r' {
                    self.refresh_request()
                } else if c == 'd' {
                    self.delete_request()
                } else if c == 'k' {
                    self.move_selection(-1);
                    Command::Continue
                } else if c == 'j' {
                    self.move_selection(1);
                    Command::Continue
                } else {
                    Command::Continue
                }
            },
            KeyCode::Tab | KeyCode::Right => {
                self.focus = Focus::Items;
                Command::Continue
            },
            KeyCode::Left => {
                self.focus = Focus::Feeds;
                Command::Continue
            },
            KeyCode::Up => {
                self.move_selection(-1);
                Command::Continue
            },
            KeyCode::Down => {
                self.move_selection(1);
                Command::Continue
            },
            KeyCode::PageUp => {
                self.move_selection(-PAGE_JUMP);
                Command::Continue
            },
            KeyCode::PageDown => {
                self.move_selection(PAGE_JUMP);
                Command::Continue
            },
            _ => Command::Continue,
        }
    }

    /// Asks for the selected real feed to be fetched again.
    pub fn refresh_request(&mut self) -> (r: Command)
        requires
            old(self).wf(),
        ensures
            final(self).wf(),
            refresh_step(*old(self), *final(self), r),
    {
        match self.selected_feed() {
            Some(i) => {
                let url = self.db.feeds[i].url.clone();
                Command::Fetch(url, FetchPurpose::Refresh)
            },
            None => {
                self.status = String::from_str("Select a feed to refresh.");
                Command::Continue
            },
        }
    }

    /// Removes the selected real feed and asks for the collection to be saved.
    pub fn delete_request(&mut self) -> (r: Command)
        requires
            old(self).wf(),
        ensures
            final(self).wf(),
            delete_step(*old(self), *final(self), r),
    {
        match self.delete_selected() {
            Some(url) => {
                let mut status = String::from_str("Removed ");
                status.append(url.as_str());
                self.status = status;
                Command::Save
            },
            None => {
                self.status = String::from_str("Select a feed to delete.");
                Command::Continue
            },
        }
    }

    /// Takes the outcome of a fetch of `url`: on success stores the feed,
    /// selects it, reports it, and returns `true` (the collection must now be
    /// saved); on failure reports the error and changes nothing else.
    pub fn apply_fetch(
        &mut self,
        url: String,
        purpose: FetchPurpose,
        outcome: Result<(Option<String>, Vec<FeedItem>), String>,
    ) -> (r: bool)
        requires
            old(self).wf(),
        ensures
            final(self).wf(),
            r == outcome.is_ok(),
            outcome matches Err(e) ==> status_only(*old(self), *final(self), "Error: "@ + e@),
            outcome matches Ok((title, items)) ==> {
                &&& final(self).db@ == upserted(
                    old(self).db@,
                    url@,
                    opt_text(title),
                    items_view(items@),
                )
                &&& final(self).feed_selected == first_match(final(self).db@, url@) + 1
                &&& final(self).item_selected == fitted_selection(
                    old(self).item_selected,
                    items@.len() as nat,
                )
                &&& final(self).focus == old(self).focus
                &&& final(self).mode == old(self).mode
                &&& final(self).input == old(self).input
                &&& final(self).status@ == (match purpose {
                    FetchPurpose::Add => "Added "@,
                    FetchPurpose::Refresh => "Refreshed "@,
                }) + url@
            },
    {
        match outcome {
            Ok((title, items)) => {
                let mut status = match purpose {
                    FetchPurpose::Add => String::from_str("Added "),
                    FetchPurpose::Refresh => String::from_str("Refreshed "),
                };
                status.append(url.as_str());
                self.upsert_feed(url, title, items);
                self.status = status;
                true
            },
            Err(e) => {
                let mut status = String::from_str("Error: ");
                status.append(e.as_str());
                self.status = status;
                false
            },
        }
    }
}

} // verus!
