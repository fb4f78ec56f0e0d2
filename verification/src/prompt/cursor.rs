//! An editable sequence of characters with an insertion point.

use vstd::prelude::*;

verus! {

/// The contents of a [`StringCursor`]: the characters, and how many of them
/// stand before the insertion point.
#[verifier::ext_equal]
pub struct Buffer {
    pub text: Seq<char>,
    pub cursor: nat,
}

/// One change that a key can make to a buffer.
pub enum Edit {
    /// Put a character at the insertion point.
    Insert(char),
    /// Remove the character before the insertion point.
    DeleteLeft,
}

impl Buffer {
    /// The insertion point lies within the text or right after it.
    pub open spec fn valid(self) -> bool {
        self.cursor <= self.text.len()
    }

    /// No text, insertion point at the start.
    pub open spec fn empty() -> Buffer {
        Buffer { text: Seq::empty(), cursor: 0 }
    }

    /// `chr` put at the insertion point, which moves past it.
    pub open spec fn insert(self, chr: char) -> Buffer {
        Buffer { text: self.text.insert(self.cursor as int, chr), cursor: self.cursor + 1 }
    }

    /// The character before the insertion point removed; unchanged at the start.
    pub open spec fn delete_left(self) -> Buffer {
        if self.cursor == 0 {
            self
        } else {
            Buffer {
                text: self.text.remove(self.cursor - 1),
                cursor: (self.cursor - 1) as nat,
            }
        }
    }

    /// `more` added after the last character; the insertion point stays.
    pub open spec fn extend(self, more: Seq<char>) -> Buffer {
        Buffer { text: self.text + more, cursor: self.cursor }
    }

    /// The buffer after one edit.
    pub open spec fn apply(self, edit: Edit) -> Buffer {
        match edit {
            Edit::Insert(chr) => self.insert(chr),
            Edit::DeleteLeft => self.delete_left(),
        }
    }

    /// The buffer after `edits`, first to last.
    pub open spec fn apply_all(self, edits: Seq<Edit>) -> Buffer
        decreases edits.len(),
    {
        if edits.len() == 0 {
            self
        } else {
            self.apply_all(edits.drop_last()).apply(edits.last())
        }
    }
}

/// A text buffer that is edited at a cursor.
///
/// The text is held as whole characters, so no edit can cut a character that
/// takes several bytes in two.
pub struct StringCursor {
    value: Vec<char>,
    cursor: usize,
}

impl View for StringCursor {
    type V = Buffer;

    closed spec fn view(&self) -> Buffer {
        Buffer { text: self.value@, cursor: self.cursor as nat }
    }
}

impl Clone for StringCursor {
    fn clone(&self) -> (copy: StringCursor)
        ensures
            copy@ == self@,
    {
        StringCursor { value: self.value.clone(), cursor: self.cursor }
    }
}

impl Default for StringCursor {
    fn default() -> (buffer: StringCursor)
        ensures
            buffer@ == Buffer::empty(),
    {
        StringCursor { value: Vec::new(), cursor: 0 }
    }
}

impl StringCursor {
    /// The cursor is within `[0, length]`.
    pub open spec fn wf(&self) -> bool {
        self@.valid()
    }

    /// Whether the buffer holds no character.
    pub fn is_empty(&self) -> (empty: bool)
        ensures
            empty == (self@.text.len() == 0),
    {
        self.value.is_empty()
    }

    /// The number of characters.
    pub fn len(&self) -> (len: usize)
        ensures
            len == self@.text.len(),
    {
        self.value.len()
    }

    /// The offset of the cursor, counted in characters.
    pub fn cursor(&self) -> (offset: usize)
        ensures
            offset == self@.cursor,
    {
        self.cursor
    }

    /// Inserts `chr` at the cursor and moves the cursor past it.
    pub fn insert(&mut self, chr: char)
        requires
            old(self).wf(),
        ensures
            final(self)@ == old(self)@.insert(chr),
            final(self).wf(),
    {
        self.value.insert(self.cursor, chr);
        assert(self.cursor < self.value.len());
        self.cursor = self.cursor + 1;
    }

    /// Removes the character before the cursor, if there is one.
    pub fn delete_left(&mut self)
        requires
            old(self).wf(),
        ensures
            final(self)@ == old(self)@.delete_left(),
            final(self).wf(),
    {
        if self.cursor > 0 {
            self.cursor = self.cursor - 1;
            self.value.remove(self.cursor);
        }
    }

    /// Appends the characters of `string`; the cursor stays where it is.
    pub fn extend(&mut self, string: &str)
        requires
            old(self).wf(),
        ensures
            final(self)@ == old(self)@.extend(string@),
            final(self).wf(),
    {
        let ghost before = self.value@;
        for chr in chars: string.chars()
            invariant
                chars.seq() == string@,
                self.value@ == before + string@.take(chars.index() as int),
                self.cursor == old(self).cursor,
        {
            self.value.push(chr);
        }
    }

    /// Empties the buffer and puts the cursor at the start.
    pub fn clear(&mut self)
        ensures
            final(self)@ == Buffer::empty(),
            final(self).wf(),
    {
        self.value.clear();
        self.cursor = 0;
    }

    /// The text of the buffer.
    pub fn to_string(&self) -> (text: String)
        ensures
            text@ == self@.text,
    {
        let mut text = String::new();
        let mut at: usize = 0;
        while at < self.value.len()
            invariant
                at <= self.value.len(),
                text@ == self.value@.take(at as int),
            decreases self.value.len() - at,
        {
            text.push(self.value[at]);
            at = at + 1;
        }
        text
    }
}

/// `String::push` appends one character.
pub assume_specification[ String::push ](text: &mut String, ch: char)
    ensures
        final(text)@ == old(text)@.push(ch),
;

/// An edit changes the text by one whole character or not at all: what
/// stood before and after the cursor stays as it was, character for
/// character, and the cursor stays within `[0, length]`.
pub proof fn lemma_edit_keeps_characters_whole(buffer: Buffer, edit: Edit)
    requires
        buffer.valid(),
    ensures
        buffer.apply(edit).valid(),
        edit matches Edit::Insert(chr) ==> buffer.apply(edit).text == buffer.text.take(
            buffer.cursor as int,
        ) + seq![chr] + buffer.text.skip(buffer.cursor as int) && buffer.apply(edit).cursor
            == buffer.cursor + 1,
        edit is DeleteLeft && buffer.cursor > 0 ==> buffer.apply(edit).text == buffer.text.take(
            buffer.cursor - 1,
        ) + buffer.text.skip(buffer.cursor as int) && buffer.apply(edit).cursor == buffer.cursor
            - 1,
        edit is DeleteLeft && buffer.cursor == 0 ==> buffer.apply(edit) == buffer,
{
}

/// Whatever is typed and deleted, in whatever order, the cursor stays within
/// `[0, length]`.
pub proof fn lemma_edits_keep_cursor_in_bounds(buffer: Buffer, edits: Seq<Edit>)
    requires
        buffer.valid(),
    ensures
        buffer.apply_all(edits).valid(),
    decreases edits.len(),
{
    if edits.len() > 0 {
        lemma_edits_keep_cursor_in_bounds(buffer, edits.drop_last());
    }
}

/// Text appended to an empty buffer is read back unchanged.
pub proof fn lemma_extend_round_trip(text: Seq<char>)
    ensures
        Buffer::empty().extend(text).text == text,
        Buffer::empty().extend(text).valid(),
{
}

} // verus!
