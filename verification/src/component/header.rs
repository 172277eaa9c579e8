//! The path header: the current directory, a buffer in which another path
//! can be typed, and the way up to the parent directory.

use vstd::prelude::*;
use vstd::string::*;
use crate::paths::{is_proper_prefix_of, parent_named, parent_of};
use crate::text::{same_text, text_of};

verus! {

/// What the header asks of the browser.
#[derive(Debug)]
pub enum HeaderEvent {
    /// Show the directory at this path.
    NavigateTo(String),
}

/// The path that an event, if any, asks for.
pub open spec fn target_of(event: Option<HeaderEvent>) -> Option<Seq<char>> {
    match event {
        Some(HeaderEvent::NavigateTo(path)) => Some(path@),
        None => None,
    }
}

/// The state of the path header.
#[derive(Debug)]
pub struct Header {
    current_path: String,
    path_input: String,
    is_editing: bool,
}

/// What the header holds, as plain values.
pub struct HeaderView {
    /// The directory that the browser shows.
    pub current_path: Seq<char>,
    /// The text in the path field.
    pub path_input: Seq<char>,
    /// Whether the path field takes key strokes.
    pub is_editing: bool,
}

/// Whether a character is a control character: one of the first 32, or one
/// from U+007F to U+009F.
pub open spec fn is_control(c: char) -> bool {
    c <= '\u{1f}' || ('\u{7f}' <= c && c <= '\u{9f}')
}

/// Whether a key stroke types a character: its name is one character, and
/// that is no control character.
pub open spec fn types_character(key: Seq<char>) -> bool {
    key.len() == 1 && !is_control(key[0])
}

impl HeaderView {
    /// While the field is not being edited, it shows the current path.
    pub open spec fn wf(self) -> bool {
        !self.is_editing ==> self.path_input == self.current_path
    }

    /// The header after the browser has moved to `path`.
    pub open spec fn moved_to(self, path: Seq<char>) -> HeaderView {
        HeaderView { current_path: path, path_input: path, ..self }
    }

    /// Whether a key stroke submits the field as a path that is accepted.
    pub open spec fn submits(self, key: Seq<char>, input_is_directory: bool) -> bool {
        self.is_editing && key == "enter"@ && input_is_directory
    }

    /// The header after a key stroke. `input_is_directory` tells whether the
    /// text of the field names an existing directory. Outside editing, keys
    /// do nothing. `enter` on an existing directory moves there and ends the
    /// editing; on anything else it changes nothing, so that the text can be
    /// corrected. `escape` ends the editing and restores the current path.
    /// `backspace` removes the last character, a key that types a character
    /// appends it, and every other key is ignored.
    pub open spec fn after_key(self, key: Seq<char>, input_is_directory: bool) -> HeaderView {
        if !self.is_editing {
            self
        } else if key == "enter"@ {
            if input_is_directory {
                HeaderView { is_editing: false, ..self.moved_to(self.path_input) }
            } else {
                self
            }
        } else if key == "escape"@ {
            HeaderView { is_editing: false, ..self.moved_to(self.current_path) }
        } else if key == "backspace"@ {
            if self.path_input.len() > 0 {
                HeaderView { path_input: self.path_input.drop_last(), ..self }
            } else {
                self
            }
        } else if types_character(key) {
            HeaderView { path_input: self.path_input + key, ..self }
        } else {
            self
        }
    }

    /// The path that a key stroke asks the browser to move to, if any.
    pub open spec fn key_target(self, key: Seq<char>, input_is_directory: bool) -> Option<
        Seq<char>,
    > {
        if self.submits(key, input_is_directory) {
            Some(self.path_input)
        } else {
            None
        }
    }

    /// The header after a step up to `parent`, the parent of the current
    /// path, if it has one.
    pub open spec fn after_back(self, parent: Option<Seq<char>>) -> HeaderView {
        match parent {
            Some(parent) => self.moved_to(parent),
            None => self,
        }
    }
}

/// No key stroke breaks the rule that the field shows the current path while
/// it is not being edited, and a text that is no existing directory is never
/// moved to.
pub proof fn lemma_after_key(header: HeaderView, key: Seq<char>, input_is_directory: bool)
    requires
        header.wf(),
    ensures
        header.after_key(key, input_is_directory).wf(),
        !input_is_directory ==> header.after_key(key, input_is_directory).current_path
            == header.current_path && header.key_target(key, input_is_directory) is None,
        header.key_target(key, input_is_directory) matches Some(target) ==> header.after_key(
            key,
            input_is_directory,
        ).current_path == target,
{
}

/// Canceling an edit restores the field to the current path and moves nowhere.
pub proof fn lemma_cancel_restores(header: HeaderView, input_is_directory: bool)
    requires
        header.is_editing,
    ensures
        header.after_key("escape"@, input_is_directory) == (HeaderView {
            is_editing: false,
            path_input: header.current_path,
            ..header
        }),
        header.key_target("escape"@, input_is_directory) is None,
{
    reveal_strlit("escape");
    reveal_strlit("enter");
    assert("escape"@ != "enter"@) by {
        assert("escape"@.len() != "enter"@.len());
    }
}

impl View for Header {
    type V = HeaderView;

    closed spec fn view(&self) -> HeaderView {
        HeaderView {
            current_path: self.current_path@,
            path_input: self.path_input@,
            is_editing: self.is_editing,
        }
    }
}

impl Header {
    /// The header for the directory `current_path`; for the working
    /// directory where none is given; and for the root where that is not
    /// known either.
    pub fn new(current_path: Option<String>, working_directory: Option<String>) -> (header: Header)
        ensures
            header@.is_editing == false,
            header@.path_input == header@.current_path,
            header@.current_path == match (current_path, working_directory) {
                (Some(path), _) => path@,
                (None, Some(directory)) => directory@,
                (None, None) => "/"@,
            },
    {
        let path = match current_path {
            Some(path) => path,
            None => match working_directory {
                Some(directory) => directory,
                None => "/".to_owned(),
            },
        };
        Header { current_path: path.clone(), path_input: path, is_editing: false }
    }

    /// The header as the browser first shows it: as `new` makes it.
    pub fn view(current_path: Option<String>, working_directory: Option<String>) -> (header:
        Header)
        ensures
            header@.is_editing == false,
            header@.path_input == header@.current_path,
            header@.current_path == match (current_path, working_directory) {
                (Some(path), _) => path@,
                (None, Some(directory)) => directory@,
                (None, None) => "/"@,
            },
    {
        Header::new(current_path, working_directory)
    }

    /// Shows `path` as the current path, in the field too.
    pub fn set_path(&mut self, path: String)
        ensures
            final(self)@ == old(self)@.moved_to(path@),
    {
        self.current_path = path.clone();
        self.path_input = path;
    }

    /// Steps up to `parent`, the parent of the current path, where it has
    /// one, and asks the browser to follow.
    pub fn go_back_to(&mut self, parent: Option<String>) -> (event: Option<HeaderEvent>)
        ensures
            final(self)@ == old(self)@.after_back(text_of(parent)),
            target_of(event) == text_of(parent),
    {
        match parent {
            Some(parent) => {
                self.set_path(parent.clone());
                Some(HeaderEvent::NavigateTo(parent))
            },
            None => None,
        }
    }

    /// Steps up to the parent of the current path, where it has one, and
    /// asks the browser to follow. The parent is a shorter beginning of the
    /// path.
    pub fn go_back(&mut self) -> (event: Option<HeaderEvent>)
        ensures
            final(self)@ == old(self)@.after_back(parent_named(old(self)@.current_path)),
            target_of(event) == parent_named(old(self)@.current_path),
            target_of(event) matches Some(parent) ==> is_proper_prefix_of(
                parent,
                old(self)@.current_path,
            ),
    {
        let parent = parent_of(self.current_path.as_str());
        self.go_back_to(parent)
    }

    /// Turns the field to editing, as a click on it does.
    pub fn begin_editing(&mut self)
        ensures
            final(self)@ == (HeaderView { is_editing: true, ..old(self)@ }),
    {
        self.is_editing = true;
    }

    /// Whether the outcome of this key stroke depends on the text of the
    /// field naming an existing directory, so that the caller has to look.
    pub fn needs_directory_check(&self, key: &str) -> (needed: bool)
        ensures
            needed == (self@.is_editing && key@ == "enter"@),
    {
        self.is_editing && same_text(key, "enter")
    }

    /// Takes a key stroke. `input_is_directory` tells whether the text of
    /// the field names an existing directory; it is read only where
    /// `needs_directory_check` says so.
    pub fn key_down(&mut self, key: &str, input_is_directory: bool) -> (event: Option<
        HeaderEvent,
    >)
        ensures
            final(self)@ == old(self)@.after_key(key@, input_is_directory),
            target_of(event) == old(self)@.key_target(key@, input_is_directory),
    {
        if !self.is_editing {
            return None;
        }
        if same_text(key, "enter") {
            if input_is_directory {
                let target = self.path_input.clone();
                self.set_path(target.clone());
                self.is_editing = false;
                return Some(HeaderEvent::NavigateTo(target));
            }
        } else if same_text(key, "escape") {
            self.is_editing = false;
            let current = self.current_path.clone();
            self.set_path(current);
        } else if same_text(key, "backspace") {
            let length: usize = self.path_input.as_str().unicode_len();
            if length > 0 {
                self.path_input = self.path_input.as_str().substring_char(0, length - 1).to_owned();
            }
        } else if key.unicode_len() == 1 {
            let typed: char = key.get_char(0);
            if !(typed <= '\u{1f}' || ('\u{7f}' <= typed && typed <= '\u{9f}')) {
                self.path_input.append(key);
            }
        }
        None
    }

    pub fn current_path(&self) -> (path: &String)
        ensures
            path@ == self@.current_path,
    {
        &self.current_path
    }

    pub fn path_input(&self) -> (input: &String)
        ensures
            input@ == self@.path_input,
    {
        &self.path_input
    }

    pub fn is_editing(&self) -> (editing: bool)
        ensures
            editing == self@.is_editing,
    {
        self.is_editing
    }
}

} // verus!
