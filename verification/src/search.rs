//! Search-buffer editor: builds the text of a filter pattern from key input.

use vstd::prelude::*;
use vstd::string::StringExecFns;
use crate::key::Key;
use crate::pattern::{regex_valid, Pattern};
use crate::widget::DiscoveryWidget;

verus! {

/// Failure to turn the search buffer into a filter.
#[derive(Clone, Copy, PartialEq, Eq, Structural, Debug)]
pub enum SearchError {
    /// The buffer text is not a well-formed pattern.
    InvalidPattern,
}

/// The search string under construction. `None` means no text has been
/// entered (or the text was erased back to nothing).
#[derive(Debug)]
pub struct Search {
    pub search: Option<String>,
}

/// Relies on `String::push`: appends one character at the end.
#[verifier::external_body]
fn string_push(s: &mut String, c: char)
    ensures
        final(s)@ == old(s)@.push(c),
{
    s.push(c);
}

/// Relies on `String::pop`: removes and returns the last character, or
/// returns `None` when the string is empty.
#[verifier::external_body]
fn string_pop(s: &mut String) -> (r: Option<char>)
    ensures
        old(s)@.len() == 0 ==> r is None && final(s)@ == old(s)@,
        old(s)@.len() > 0 ==> r == Some(old(s)@.last()) && final(s)@ == old(s)@.drop_last(),
{
    s.pop()
}

impl Search {
    /// The buffer text, if any.
    pub open spec fn buffer(&self) -> Option<Seq<char>> {
        match self.search {
            Some(s) => Some(s@),
            None => None,
        }
    }

    /// A present buffer is never empty: erasing the last character makes
    /// the buffer absent.
    pub open spec fn wf(&self) -> bool {
        self.search matches Some(s) ==> s@.len() > 0
    }

    /// The buffer after one key: printable characters are appended, the
    /// erase key removes the last character (emptying the buffer makes it
    /// absent), and any other key leaves it alone.
    pub open spec fn spec_edit(buf: Option<Seq<char>>, key: Key) -> Option<Seq<char>> {
        match (buf, key) {
            (Some(s), Key::Char(c)) => Some(s.push(c)),
            (Some(s), Key::Backspace) => if s.len() <= 1 {
                None
            } else {
                Some(s.drop_last())
            },
            (None, Key::Char(c)) => Some(seq![c]),
            _ => buf,
        }
    }

    /// Compiles the buffer into a pattern: an absent buffer yields no
    /// pattern, a well-formed one yields the compiled pattern, and an
    /// ill-formed one is reported instead of being applied.
    pub fn compile_regex(&self) -> (r: Result<Option<Pattern>, SearchError>)
        ensures
            match self.buffer() {
                None => r matches Ok(p) && p is None,
                Some(t) => if regex_valid(t) {
                    r matches Ok(p) && p matches Some(q) && q@ == t
                } else {
                    r == Err::<Option<Pattern>, SearchError>(SearchError::InvalidPattern)
                },
            },
    {
        match &self.search {
            None => Ok(None),
            Some(text) => match Pattern::compile(text) {
                Ok(p) => Ok(Some(p)),
                Err(_) => Err(SearchError::InvalidPattern),
            },
        }
    }
}

impl Default for Search {
    /// An empty search buffer.
    fn default() -> (r: Self)
        ensures
            r.search is None,
    {
        Search { search: None }
    }
}

impl DiscoveryWidget for Search {
    open spec fn title_spec(&self) -> Seq<char> {
        "Search"@
    }

    open spec fn controls_spec(&self) -> Seq<char> {
        "Use \u{21b5} to apply. Esc to exit"@
    }

    open spec fn widget_wf(&self) -> bool {
        self.wf()
    }

    open spec fn key_step(pre: Self, key: Key, post: Self) -> bool {
        post.buffer() == Self::spec_edit(pre.buffer(), key)
    }

    fn title(&self) -> (r: String) {
        String::from_str("Search")
    }

    fn controls(&self) -> (r: String) {
        String::from_str("Use \u{21b5} to apply. Esc to exit")
    }

    fn process_key_event(&mut self, key_event: &Key) {
        let k = *key_event;
        match k {
            Key::Char(c) => match &mut self.search {
                Some(s) => string_push(s, c),
                None => {
                    let mut s = String::new();
                    string_push(&mut s, c);
                    self.search = Some(s);
                },
            },
            Key::Backspace => match &mut self.search {
                Some(s) => {
                    let _ = string_pop(s);
                },
                None => {},
            },
            _ => {},
        }
        let clear = match &self.search {
            Some(s) => s.as_str().is_empty(),
            None => false,
        };
        if clear {
            self.search = None;
        }
    }
}

} // verus!
