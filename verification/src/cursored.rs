//! A string with a character-based cursor position for editing.
//!
//! The cursor always sits "in front of" the character with the same index, so
//! deleting behind and deleting ahead of the cursor are distinct operations.
//! The buffer is held as UTF-8 bytes (a `String`); every edit resolves the
//! character index to a character boundary, never splitting a multi-byte
//! character. The model of the type is [`TextModel`]: the character sequence,
//! the cursor, and the overwrite flag.

use vstd::prelude::*;
use vstd::string::*;
use vstd::utf8::{decode_utf8, encode_utf8, encode_utf8_decode_utf8, encode_utf8_valid_utf8,
    valid_utf8};

verus! {

/// Mathematical model of a cursored text buffer.
#[verifier::ext_equal]
pub struct TextModel {
    /// The buffer, as the sequence of its characters.
    pub text: Seq<char>,
    /// Character index of the cursor, always within `0 ..= text.len()`.
    pub cursor: nat,
    /// Whether typed characters replace the character at the cursor.
    pub inserting: bool,
}

impl TextModel {
    /// The cursor never leaves the buffer.
    pub open spec fn wf(self) -> bool {
        self.cursor <= self.text.len()
    }
}

/// Moving the cursor one character right, stopping at the end of the buffer.
pub open spec fn next_model(m: TextModel) -> TextModel {
    if m.cursor < m.text.len() {
        TextModel { cursor: m.cursor + 1, ..m }
    } else {
        m
    }
}

/// Moving the cursor one character left, stopping at the start of the buffer.
pub open spec fn prev_model(m: TextModel) -> TextModel {
    if m.cursor > 0 {
        TextModel { cursor: (m.cursor - 1) as nat, ..m }
    } else {
        m
    }
}

/// Removing the character behind the cursor; a no-op with the cursor at index 0.
pub open spec fn remove_behind_model(m: TextModel) -> TextModel {
    if m.cursor > 0 {
        TextModel { text: m.text.remove(m.cursor - 1), cursor: (m.cursor - 1) as nat, ..m }
    } else {
        m
    }
}

/// Removing the character at the cursor; a no-op with the cursor at the end.
pub open spec fn remove_ahead_model(m: TextModel) -> TextModel {
    if m.cursor < m.text.len() {
        TextModel { text: m.text.remove(m.cursor as int), ..m }
    } else {
        m
    }
}

/// Inserting a character at the cursor and advancing the cursor past it. In
/// overwrite mode the character at the cursor is removed first, so typing over
/// the middle of the buffer replaces one character and typing at the end
/// appends. (With a buffer of `usize::MAX` characters that is not growable on a
/// real machine, a plain insertion leaves the buffer unchanged.)
pub open spec fn insert_model(m: TextModel, c: char) -> TextModel {
    if m.text.len() == usize::MAX && !(m.inserting && m.cursor < m.text.len()) {
        m
    } else {
        let base = if m.inserting {
            remove_ahead_model(m)
        } else {
            m
        };
        TextModel {
            text: base.text.insert(base.cursor as int, c),
            cursor: base.cursor + 1,
            inserting: base.inserting,
        }
    }
}

/// Flipping between insert and overwrite mode; cursor and text are untouched.
pub open spec fn toggle_overwrite_model(m: TextModel) -> TextModel {
    TextModel { inserting: !m.inserting, ..m }
}

/// A `String` with a cursor character-based position for editing.
/// The cursor is always considered "in front" of the character with the same index.
pub struct CursoredString {
    buf: String,
    index: usize,
    inserting: bool,
}

impl View for CursoredString {
    type V = TextModel;

    closed spec fn view(&self) -> TextModel {
        TextModel { text: self.buf@, cursor: self.index as nat, inserting: self.inserting }
    }
}

impl CursoredString {
    /// The cursor index stays within the character count of the buffer.
    pub open spec fn wf(&self) -> bool {
        self@.wf()
    }

    /// Creates a new empty `CursoredString`.
    pub fn new() -> (r: Self)
        ensures
            r.wf(),
            r@.text.len() == 0,
            r@.cursor == 0,
            !r@.inserting,
    {
        CursoredString { buf: String::new(), index: 0, inserting: false }
    }

    /// Wraps an owned string, with the cursor at the start and overwrite off.
    pub fn from_text(text: String) -> (r: Self)
        ensures
            r.wf(),
            r@ == (TextModel { text: text@, cursor: 0, inserting: false }),
    {
        CursoredString { buf: text, index: 0, inserting: false }
    }

    /// Gets the text from the internal buffer.
    pub fn as_str(&self) -> (r: &str)
        ensures
            r@ == self@.text,
    {
        self.buf.as_str()
    }

    /// Gives the buffer away as a plain `String`.
    pub fn into_text(self) -> (r: String)
        ensures
            r@ == self@.text,
    {
        self.buf
    }

    /// The UTF-8 bytes of the buffer; always a valid UTF-8 encoding.
    pub fn as_bytes(&self) -> (r: &[u8])
        ensures
            r@ == encode_utf8(self@.text),
    {
        self.buf.as_str().as_bytes()
    }

    /// Gets the current index for the cursor.
    pub fn cursor_index(&self) -> (r: usize)
        ensures
            r == self@.cursor,
    {
        self.index
    }

    /// The number of characters in the buffer.
    pub fn char_count(&self) -> (r: usize)
        ensures
            r == self@.text.len(),
    {
        self.buf.as_str().unicode_len()
    }

    /// Whether typed characters currently overwrite the character at the cursor.
    pub fn is_overwriting(&self) -> (r: bool)
        ensures
            r == self@.inserting,
    {
        self.inserting
    }

    /// Flips between insert and overwrite mode without moving the cursor.
    pub fn toggle_overwrite(&mut self)
        ensures
            final(self)@ == toggle_overwrite_model(old(self)@),
            final(self).wf() == old(self).wf(),
    {
        self.inserting = !self.inserting;
    }

    /// Move the cursor to the right.
    pub fn next(&mut self)
        requires
            old(self).wf(),
        ensures
            final(self).wf(),
            final(self)@ == next_model(old(self)@),
    {
        let n = self.char_count();
        if self.index < n {
            self.index = self.index + 1;
        }
    }

    /// Move the cursor to the left.
    pub fn prev(&mut self)
        requires
            old(self).wf(),
        ensures
            final(self).wf(),
            final(self)@ == prev_model(old(self)@),
    {
        if self.index > 0 {
            self.index = self.index - 1;
        }
    }

    /// Remove a character from behind the cursor.
    pub fn remove_behind(&mut self)
        requires
            old(self).wf(),
        ensures
            final(self).wf(),
            final(self)@ == remove_behind_model(old(self)@),
    {
        if self.index > 0 {
            let n = self.char_count();
            let pre = self.buf.as_str().substring_char(0, self.index - 1);
            let post = self.buf.as_str().substring_char(self.index, n);
            let mut out = pre.to_owned();
            out.append(post);
            proof {
                assert(out@ =~= old(self)@.text.remove(old(self)@.cursor - 1));
            }
            self.buf = out;
            self.index = self.index - 1;
            proof {
                assert(self@ =~= remove_behind_model(old(self)@));
            }
        }
    }

    /// Removes a character ahead (same index) of the cursor.
    pub fn remove_ahead(&mut self)
        requires
            old(self).wf(),
        ensures
            final(self).wf(),
            final(self)@ == remove_ahead_model(old(self)@),
    {
        let n = self.char_count();
        if self.index < n {
            let pre = self.buf.as_str().substring_char(0, self.index);
            let post = self.buf.as_str().substring_char(self.index + 1, n);
            let mut out = pre.to_owned();
            out.append(post);
            proof {
                assert(out@ =~= old(self)@.text.remove(old(self)@.cursor as int));
            }
            self.buf = out;
            proof {
                assert(self@ =~= remove_ahead_model(old(self)@));
            }
        }
    }

    /// Inserts a character at the current position, moving existing characters
    /// after the cursor ahead. Replaces the current character if overwrite mode
    /// is enabled. The character index is resolved to a character boundary, so
    /// the insertion never splits a multi-byte character.
    pub fn insert(&mut self, value: char)
        requires
            old(self).wf(),
        ensures
            final(self).wf(),
            final(self)@ == insert_model(old(self)@, value),
    {
        let n = self.char_count();
        if self.inserting && self.index < n {
            self.remove_ahead();
        } else if n == usize::MAX {
            return ;
        }
        let n2 = self.char_count();
        let pre = self.buf.as_str().substring_char(0, self.index);
        let post = self.buf.as_str().substring_char(self.index, n2);
        let mut out = pre.to_owned();
        out.push(value);
        out.append(post);
        proof {
            let base = if old(self)@.inserting {
                remove_ahead_model(old(self)@)
            } else {
                old(self)@
            };
            assert(out@ =~= base.text.insert(base.cursor as int, value));
        }
        self.buf = out;
        self.index = self.index + 1;
        proof {
            assert(self@ =~= insert_model(old(self)@, value));
        }
    }
}

/// Inserting a character and then removing behind the cursor restores the
/// original buffer and cursor (in insert mode).
pub proof fn lemma_insert_then_remove_behind(m: TextModel, c: char)
    requires
        m.wf(),
        !m.inserting,
        m.text.len() < usize::MAX,
    ensures
        remove_behind_model(insert_model(m, c)) == m,
{
    assert(remove_behind_model(insert_model(m, c)).text =~= m.text);
    assert(remove_behind_model(insert_model(m, c)) =~= m);
}

/// Applying `insert_model` once for each character of `cs`, left to right.
pub open spec fn insert_all_model(m: TextModel, cs: Seq<char>) -> TextModel
    decreases cs.len(),
{
    if cs.len() == 0 {
        m
    } else {
        insert_all_model(insert_model(m, cs[0]), cs.drop_first())
    }
}

/// Applying `remove_behind_model` `n` times.
pub open spec fn remove_behind_n_model(m: TextModel, n: nat) -> TextModel
    decreases n,
{
    if n == 0 {
        m
    } else {
        remove_behind_n_model(remove_behind_model(m), (n - 1) as nat)
    }
}

proof fn lemma_remove_behind_n_unfold_last(m: TextModel, n: nat)
    ensures
        remove_behind_n_model(m, n + 1) == remove_behind_model(remove_behind_n_model(m, n)),
    decreases n,
{
    assert(remove_behind_n_model(m, n + 1) == remove_behind_n_model(remove_behind_model(m), n));
    if n > 0 {
        lemma_remove_behind_n_unfold_last(remove_behind_model(m), (n - 1) as nat);
        assert(remove_behind_n_model(m, n) == remove_behind_n_model(remove_behind_model(m),
            (n - 1) as nat));
    }
}

/// For every buffer and every sequence of typed characters: repeated `insert`
/// followed by the same number of `remove_behind` restores the original buffer
/// and the original cursor position (in insert mode, on a buffer the machine
/// can hold).
pub proof fn lemma_edit_round_trip(m: TextModel, cs: Seq<char>)
    requires
        m.wf(),
        !m.inserting,
        m.text.len() + cs.len() <= usize::MAX,
    ensures
        remove_behind_n_model(insert_all_model(m, cs), cs.len()) == m,
    decreases cs.len(),
{
    if cs.len() > 0 {
        let m1 = insert_model(m, cs[0]);
        assert(m1.text =~= m.text.insert(m.cursor as int, cs[0]));
        lemma_edit_round_trip(m1, cs.drop_first());
        lemma_remove_behind_n_unfold_last(insert_all_model(m1, cs.drop_first()),
            cs.drop_first().len());
        lemma_insert_then_remove_behind(m, cs[0]);
    }
}

/// `insert` never produces a buffer whose byte form breaks a UTF-8 boundary:
/// the bytes of the buffer after any insertion are a valid UTF-8 encoding, and
/// decoding them gives back exactly the inserted-into character sequence.
pub proof fn lemma_insert_keeps_utf8_valid(m: TextModel, c: char)
    ensures
        valid_utf8(encode_utf8(insert_model(m, c).text)),
        decode_utf8(encode_utf8(insert_model(m, c).text)) == insert_model(m, c).text,
{
    broadcast use encode_utf8_valid_utf8, encode_utf8_decode_utf8;

}

/// The byte form of the buffer of any `CursoredString` is valid UTF-8.
pub proof fn lemma_buffer_bytes_valid_utf8(s: &CursoredString)
    ensures
        valid_utf8(encode_utf8(s@.text)),
{
    broadcast use encode_utf8_valid_utf8;

}

/// In overwrite mode, inserting replaces exactly the character at the cursor
/// when the cursor is not at the end of the buffer, and appends when it is.
pub proof fn lemma_overwrite_insert(m: TextModel, c: char)
    requires
        m.wf(),
        m.inserting,
        m.text.len() < usize::MAX,
    ensures
        m.cursor < m.text.len() ==> insert_model(m, c).text == m.text.update(m.cursor as int, c)
            && insert_model(m, c).text.len() == m.text.len(),
        m.cursor == m.text.len() ==> insert_model(m, c).text == m.text.push(c)
            && insert_model(m, c).text.len() == m.text.len() + 1,
        insert_model(m, c).cursor == m.cursor + 1,
{
    if m.cursor < m.text.len() {
        assert(insert_model(m, c).text =~= m.text.update(m.cursor as int, c));
    } else {
        assert(insert_model(m, c).text =~= m.text.push(c));
    }
}

} // verus!
