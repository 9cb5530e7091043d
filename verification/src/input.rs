//! Single-line text editing state: a value, a cursor, and the keystroke
//! algebra that the palette, the search bar, and the popups share.
use vstd::prelude::*;

use crate::text::push_char;

verus! {

/// A keystroke, reduced to what a line editor cares about.
#[derive(Debug, Clone, Copy, PartialEq, Eq, Structural)]
pub enum KeyStroke {
    Char(char),
    Left,
    Right,
    WordLeft,
    WordRight,
    Home,
    End,
    Backspace,
    Delete,
    DeleteWordBack,
    DeleteWordForward,
    Other,
}

/// What characters an input accepts.
#[derive(Debug, Clone, Copy, PartialEq, Eq, Structural)]
pub enum InputType {
    Text,
    Numeric,
}

/// The index of the first space at or after `j`.
pub open spec fn skip_nonspaces(v: Seq<char>, j: nat) -> nat
    decreases v.len() - j,
{
    if j >= v.len() {
        v.len() as nat
    } else if v[j as int] == ' ' {
        j
    } else {
        skip_nonspaces(v, (j + 1) as nat)
    }
}

/// The index of the first non-space at or after `j`.
pub open spec fn skip_spaces(v: Seq<char>, j: nat) -> nat
    decreases v.len() - j,
{
    if j >= v.len() {
        v.len() as nat
    } else if v[j as int] == ' ' {
        skip_spaces(v, (j + 1) as nat)
    } else {
        j
    }
}

/// The index just past the word at `j`: the non-spaces under the cursor are
/// skipped, then the spaces after them.
pub open spec fn word_stop_forward(v: Seq<char>, j: nat) -> nat {
    skip_spaces(v, skip_nonspaces(v, j))
}

/// The index of the first non-space before `j`, scanning backwards.
pub open spec fn skip_spaces_back(v: Seq<char>, j: nat) -> nat
    decreases j,
{
    if j == 0 {
        0
    } else if v[j - 1] == ' ' {
        skip_spaces_back(v, (j - 1) as nat)
    } else {
        j
    }
}

/// The index of the first space before `j`, scanning backwards.
pub open spec fn skip_nonspaces_back(v: Seq<char>, j: nat) -> nat
    decreases j,
{
    if j == 0 {
        0
    } else if v[j - 1] != ' ' {
        skip_nonspaces_back(v, (j - 1) as nat)
    } else {
        j
    }
}

/// The start of the word before `j`: the spaces before the cursor are
/// skipped backwards, then the non-spaces before them.
pub open spec fn word_stop_backward(v: Seq<char>, j: nat) -> nat {
    skip_nonspaces_back(v, skip_spaces_back(v, j))
}

/// A single-line editor: the text, a cursor position counted in characters,
/// and what it accepts.
#[derive(Debug, Clone, PartialEq)]
pub struct InputState {
    value: String,
    cursor: usize,
    input_type: InputType,
}

impl InputState {
    /// The characters of the value.
    pub closed spec fn text(&self) -> Seq<char> {
        self.value@
    }

    /// Where the cursor stands, in characters from the start.
    pub closed spec fn cursor_at(&self) -> nat {
        self.cursor as nat
    }

    /// What the editor accepts.
    pub closed spec fn kind(&self) -> InputType {
        self.input_type
    }

    /// The cursor never leaves the text.
    pub open spec fn wf(&self) -> bool {
        self.cursor_at() <= self.text().len()
    }

    /// An empty text editor.
    pub fn new() -> (r: InputState)
        ensures
            r.wf(),
            r.text().len() == 0,
            r.cursor_at() == 0,
            r.kind() == InputType::Text,
    {
        InputState { value: String::new(), cursor: 0, input_type: InputType::Text }
    }

    /// The same editor accepting only digits.
    pub fn with_input_type(self, input_type: InputType) -> (r: InputState)
        ensures
            r.text() == self.text(),
            r.cursor_at() == self.cursor_at(),
            r.kind() == input_type,
    {
        InputState { value: self.value, cursor: self.cursor, input_type }
    }

    /// The editor holding the value, with the cursor at its end.
    pub fn with_value(self, value: String) -> (r: InputState)
        ensures
            r.wf(),
            r.text() == value@,
            r.cursor_at() == value@.len(),
            r.kind() == self.kind(),
    {
        let cursor = value.as_str().unicode_len();
        InputState { value, cursor, input_type: self.input_type }
    }

    /// The text as a string slice.
    pub fn value(&self) -> (r: &str)
        ensures
            r@ == self.text(),
    {
        self.value.as_str()
    }

    /// Moves the cursor one character right.
    pub fn goto_next(&mut self)
        requires
            old(self).wf(),
        ensures
            final(self).wf(),
            final(self).text() == old(self).text(),
            final(self).kind() == old(self).kind(),
            final(self).cursor_at() == (if old(self).cursor_at() < old(self).text().len() {
                old(self).cursor_at() + 1
            } else {
                old(self).cursor_at()
            }),
    {
        if self.cursor < self.value.as_str().unicode_len() {
            self.cursor = self.cursor + 1;
        }
    }

    /// Moves the cursor one character left.
    pub fn goto_prev(&mut self)
        requires
            old(self).wf(),
        ensures
            final(self).wf(),
            final(self).text() == old(self).text(),
            final(self).kind() == old(self).kind(),
            final(self).cursor_at() == (if old(self).cursor_at() > 0 {
                old(self).cursor_at() - 1
            } else {
                0int
            }),
    {
        if self.cursor > 0 {
            self.cursor = self.cursor - 1;
        }
    }

    /// Moves the cursor to the start.
    pub fn goto_start(&mut self)
        requires
            old(self).wf(),
        ensures
            final(self).wf(),
            final(self).text() == old(self).text(),
            final(self).kind() == old(self).kind(),
            final(self).cursor_at() == 0,
    {
        self.cursor = 0;
    }

    /// Moves the cursor past the end of the text.
    pub fn goto_end(&mut self)
        requires
            old(self).wf(),
        ensures
            final(self).wf(),
            final(self).text() == old(self).text(),
            final(self).kind() == old(self).kind(),
            final(self).cursor_at() == old(self).text().len(),
    {
        self.cursor = self.value.as_str().unicode_len();
    }

    /// Moves the cursor past the word under it.
    pub fn goto_next_word(&mut self)
        requires
            old(self).wf(),
        ensures
            final(self).wf(),
            final(self).text() == old(self).text(),
            final(self).kind() == old(self).kind(),
            final(self).cursor_at() == word_stop_forward(old(self).text(), old(self).cursor_at()),
    {
        let stop = find_word_stop_forward(self.value.as_str(), self.cursor);
        self.cursor = stop;
    }

    /// Moves the cursor to the start of the word before it.
    pub fn goto_prev_word(&mut self)
        requires
            old(self).wf(),
        ensures
            final(self).wf(),
            final(self).text() == old(self).text(),
            final(self).kind() == old(self).kind(),
            final(self).cursor_at() == word_stop_backward(old(self).text(), old(self).cursor_at()),
    {
        let stop = find_word_stop_backward(self.value.as_str(), self.cursor);
        self.cursor = stop;
    }

    /// Removes the character under the cursor, if any.
    pub fn delete_next(&mut self)
        requires
            old(self).wf(),
        ensures
            final(self).wf(),
            final(self).kind() == old(self).kind(),
            final(self).cursor_at() == old(self).cursor_at(),
            final(self).text() == (if old(self).cursor_at() < old(self).text().len() {
                old(self).text().remove(old(self).cursor_at() as int)
            } else {
                old(self).text()
            }),
    {
        let n = self.value.as_str().unicode_len();
        if self.cursor < n {
            let head = self.value.as_str().substring_char(0, self.cursor).to_owned();
            let tail = self.value.as_str().substring_char(self.cursor + 1, n);
            let mut s = head;
            s.append(tail);
            proof {
                assert(s@ =~= old(self).text().remove(old(self).cursor_at() as int));
            }
            self.value = s;
        }
    }

    /// Removes the character before the cursor, if any.
    pub fn delete_prev(&mut self)
        requires
            old(self).wf(),
        ensures
            final(self).wf(),
            final(self).kind() == old(self).kind(),
            final(self).cursor_at() == (if old(self).cursor_at() > 0 {
                old(self).cursor_at() - 1
            } else {
                0int
            }),
            final(self).text() == (if old(self).cursor_at() > 0 {
                old(self).text().remove(old(self).cursor_at() - 1)
            } else {
                old(self).text()
            }),
    {
        if self.cursor > 0 {
            let n = self.value.as_str().unicode_len();
            let head = self.value.as_str().substring_char(0, self.cursor - 1).to_owned();
            let tail = self.value.as_str().substring_char(self.cursor, n);
            let mut s = head;
            s.append(tail);
            proof {
                assert(s@ =~= old(self).text().remove(old(self).cursor_at() - 1));
            }
            self.value = s;
            self.cursor = self.cursor - 1;
        }
    }

    /// Removes from the cursor to the end of the word under it.
    pub fn delete_next_word(&mut self)
        requires
            old(self).wf(),
        ensures
            final(self).wf(),
            final(self).kind() == old(self).kind(),
            final(self).cursor_at() == old(self).cursor_at(),
            final(self).text() == old(self).text().subrange(0, old(self).cursor_at() as int)
                + old(self).text().subrange(
                word_stop_forward(old(self).text(), old(self).cursor_at()) as int,
                old(self).text().len() as int,
            ),
    {
        let n = self.value.as_str().unicode_len();
        let stop = find_word_stop_forward(self.value.as_str(), self.cursor);
        let head = self.value.as_str().substring_char(0, self.cursor).to_owned();
        let tail = self.value.as_str().substring_char(stop, n);
        let mut s = head;
        s.append(tail);
        self.value = s;
    }

    /// Removes from the start of the word before the cursor to the cursor.
    pub fn delete_prev_word(&mut self)
        requires
            old(self).wf(),
        ensures
            final(self).wf(),
            final(self).kind() == old(self).kind(),
            final(self).cursor_at() == word_stop_backward(old(self).text(), old(self).cursor_at()),
            final(self).text() == old(self).text().subrange(
                0,
                word_stop_backward(old(self).text(), old(self).cursor_at()) as int,
            ) + old(self).text().subrange(
                old(self).cursor_at() as int,
                old(self).text().len() as int,
            ),
    {
        let n = self.value.as_str().unicode_len();
        let stop = find_word_stop_backward(self.value.as_str(), self.cursor);
        let head = self.value.as_str().substring_char(0, stop).to_owned();
        let tail = self.value.as_str().substring_char(self.cursor, n);
        let mut s = head;
        s.append(tail);
        self.value = s;
        self.cursor = stop;
    }

    /// Inserts a character at the cursor; a numeric editor takes only
    /// digits.
    pub fn insert(&mut self, c: char)
        requires
            old(self).wf(),
        ensures
            final(self).wf(),
            final(self).kind() == old(self).kind(),
            ({
                let accepted = old(self).kind() == InputType::Text
                    || crate::text::is_digit(c);
                &&& final(self).text() == (if accepted {
                    old(self).text().insert(old(self).cursor_at() as int, c)
                } else {
                    old(self).text()
                })
                &&& final(self).cursor_at() as int == (if accepted {
                    old(self).cursor_at() as int + 1
                } else {
                    old(self).cursor_at() as int
                })
            }),
    {
        let accepted = match self.input_type {
            InputType::Text => true,
            InputType::Numeric => '0' <= c && c <= '9',
        };
        if accepted {
            let n = self.value.as_str().unicode_len();
            let mut s = self.value.as_str().substring_char(0, self.cursor).to_owned();
            push_char(&mut s, c);
            let with_char = s.as_str().unicode_len();
            let tail = self.value.as_str().substring_char(self.cursor, n);
            s.append(tail);
            proof {
                assert(s@ =~= old(self).text().insert(old(self).cursor_at() as int, c));
            }
            self.value = s;
            self.cursor = with_char;
        }
    }

    /// Applies one keystroke.
    pub fn handle(&mut self, key: KeyStroke)
        requires
            old(self).wf(),
        ensures
            final(self).wf(),
            key_edit(*old(self), key, *final(self)),
    {
        match key {
            KeyStroke::Char(c) => self.insert(c),
            KeyStroke::Left => self.goto_prev(),
            KeyStroke::Right => self.goto_next(),
            KeyStroke::WordLeft => self.goto_prev_word(),
            KeyStroke::WordRight => self.goto_next_word(),
            KeyStroke::Home => self.goto_start(),
            KeyStroke::End => self.goto_end(),
            KeyStroke::Backspace => self.delete_prev(),
            KeyStroke::Delete => self.delete_next(),
            KeyStroke::DeleteWordBack => self.delete_prev_word(),
            KeyStroke::DeleteWordForward => self.delete_next_word(),
            KeyStroke::Other => (),
        }
    }
}

/// What one keystroke does to a line editor: the exact text and cursor of
/// the editor after the key.
pub open spec fn key_edit(a: InputState, key: KeyStroke, b: InputState) -> bool {
    &&& b.kind() == a.kind()
    &&& match key {
        KeyStroke::Char(c) => {
            let accepted = a.kind() == InputType::Text || crate::text::is_digit(c);
            &&& b.text() == (if accepted {
                a.text().insert(a.cursor_at() as int, c)
            } else {
                a.text()
            })
            &&& b.cursor_at() as int == (if accepted {
                a.cursor_at() as int + 1
            } else {
                a.cursor_at() as int
            })
        },
        KeyStroke::Left => b.text() == a.text() && b.cursor_at() == (if a.cursor_at() > 0 {
            a.cursor_at() - 1
        } else {
            0int
        }),
        KeyStroke::Right => b.text() == a.text() && b.cursor_at() as int == (if a.cursor_at()
            < a.text().len() {
            a.cursor_at() as int + 1
        } else {
            a.cursor_at() as int
        }),
        KeyStroke::WordLeft => b.text() == a.text() && b.cursor_at() == word_stop_backward(
            a.text(),
            a.cursor_at(),
        ),
        KeyStroke::WordRight => b.text() == a.text() && b.cursor_at() == word_stop_forward(
            a.text(),
            a.cursor_at(),
        ),
        KeyStroke::Home => b.text() == a.text() && b.cursor_at() == 0,
        KeyStroke::End => b.text() == a.text() && b.cursor_at() == a.text().len(),
        KeyStroke::Backspace => b.cursor_at() == (if a.cursor_at() > 0 {
            a.cursor_at() - 1
        } else {
            0int
        }) && b.text() == (if a.cursor_at() > 0 {
            a.text().remove(a.cursor_at() - 1)
        } else {
            a.text()
        }),
        KeyStroke::Delete => b.cursor_at() == a.cursor_at() && b.text() == (if a.cursor_at()
            < a.text().len() {
            a.text().remove(a.cursor_at() as int)
        } else {
            a.text()
        }),
        KeyStroke::DeleteWordBack => b.cursor_at() == word_stop_backward(a.text(), a.cursor_at())
            && b.text() == a.text().subrange(
            0,
            word_stop_backward(a.text(), a.cursor_at()) as int,
        ) + a.text().subrange(a.cursor_at() as int, a.text().len() as int),
        KeyStroke::DeleteWordForward => b.cursor_at() == a.cursor_at() && b.text()
            == a.text().subrange(0, a.cursor_at() as int) + a.text().subrange(
            word_stop_forward(a.text(), a.cursor_at()) as int,
            a.text().len() as int,
        ),
        KeyStroke::Other => b == a,
    }
}

impl Default for InputState {
    /// An empty text editor.
    fn default() -> (r: Self)
        ensures
            r.wf(),
            r.text().len() == 0,
            r.cursor_at() == 0,
            r.kind() == InputType::Text,
    {
        InputState::new()
    }
}

/// Finds the forward word stop from `j`.
fn find_word_stop_forward(s: &str, j: usize) -> (r: usize)
    requires
        j <= s@.len(),
    ensures
        r == word_stop_forward(s@, j as nat),
        j <= r <= s@.len(),
{
    let n = s.unicode_len();
    let mut k: usize = j;
    while k < n && s.get_char(k) != ' '
        invariant
            j <= k <= n == s@.len(),
            skip_nonspaces(s@, j as nat) == skip_nonspaces(s@, k as nat),
        decreases n - k,
    {
        k = k + 1;
    }
    proof {
        assert(skip_nonspaces(s@, k as nat) == k);
    }
    let mut m: usize = k;
    while m < n && s.get_char(m) == ' '
        invariant
            j <= k <= m <= n == s@.len(),
            skip_nonspaces(s@, j as nat) == k,
            skip_spaces(s@, k as nat) == skip_spaces(s@, m as nat),
        decreases n - m,
    {
        m = m + 1;
    }
    proof {
        assert(skip_spaces(s@, m as nat) == m);
    }
    m
}

/// Finds the backward word stop from `j`.
fn find_word_stop_backward(s: &str, j: usize) -> (r: usize)
    requires
        j <= s@.len(),
    ensures
        r == word_stop_backward(s@, j as nat),
        r <= j,
{
    let mut k: usize = j;
    while k > 0 && s.get_char(k - 1) == ' '
        invariant
            0 <= k <= j <= s@.len(),
            skip_spaces_back(s@, j as nat) == skip_spaces_back(s@, k as nat),
        decreases k,
    {
        k = k - 1;
    }
    proof {
        assert(skip_spaces_back(s@, k as nat) == k);
    }
    let mut m: usize = k;
    while m > 0 && s.get_char(m - 1) != ' '
        invariant
            0 <= m <= k <= j <= s@.len(),
            skip_spaces_back(s@, j as nat) == k,
            skip_nonspaces_back(s@, k as nat) == skip_nonspaces_back(s@, m as nat),
        decreases m,
    {
        m = m - 1;
    }
    proof {
        assert(skip_nonspaces_back(s@, m as nat) == m);
    }
    m
}

/// A selection over a list of a known length: nothing, or one index.
#[derive(Debug, Clone, Copy, PartialEq, Eq, Structural, Default)]
pub struct ListSelection {
    pub selected: Option<usize>,
}

impl ListSelection {
    /// No selection.
    pub fn new() -> (r: ListSelection)
        ensures
            r.selected is None,
    {
        ListSelection { selected: None }
    }

    /// The selected index, if any.
    pub fn selected(&self) -> (r: Option<usize>)
        ensures
            r == self.selected,
    {
        self.selected
    }

    /// Sets or clears the selection.
    pub fn select(&mut self, sel: Option<usize>)
        ensures
            final(self).selected == sel,
    {
        self.selected = sel;
    }

    /// Moves the selection up: from nothing to the last entry, otherwise one
    /// up, never past the first.
    pub fn select_previous(&mut self, len: usize)
        ensures
            final(self).selected == (if len == 0 {
                Option::<usize>::None
            } else {
                match old(self).selected {
                    None => Some((len - 1) as usize),
                    Some(i) => Some((if i > 0 {
                        i - 1
                    } else {
                        0
                    }) as usize),
                }
            }),
    {
        if len == 0 {
            self.selected = None;
        } else {
            self.selected = match self.selected {
                None => Some(len - 1),
                Some(i) => Some(if i > 0 {
                    i - 1
                } else {
                    0
                }),
            };
        }
    }

    /// Moves the selection down: from nothing to the first entry, otherwise
    /// one down, never past the last.
    pub fn select_next(&mut self, len: usize)
        ensures
            final(self).selected == (if len == 0 {
                Option::<usize>::None
            } else {
                match old(self).selected {
                    None => Some(0usize),
                    Some(i) => Some((if i + 1 < len {
                        (i + 1) as usize
                    } else {
                        (len - 1) as usize
                    })),
                }
            }),
    {
        if len == 0 {
            self.selected = None;
        } else {
            self.selected = match self.selected {
                None => Some(0),
                Some(i) => Some(if i < len - 1 {
                    i + 1
                } else {
                    len - 1
                }),
            };
        }
    }
}

} // verus!
