//! A cursor over the bytes of one source unit.

use vstd::prelude::*;

verus! {

/// The bytes of one source, read front to back, one character per byte.
pub struct CharReader {
    file_map: Vec<u8>,
    byte_pointer: usize,
    current_file: String,
}

/// Mathematical model of a [`CharReader`]: the whole text, how many of its
/// characters were consumed, and the name of the source.
pub ghost struct ReaderView {
    pub chars: Seq<char>,
    pub position: nat,
    pub file: Seq<char>,
}

/// The text that a byte buffer holds: each byte is the character with the
/// same code point.
pub open spec fn chars_of(bytes: Seq<u8>) -> Seq<char> {
    bytes.map_values(|b: u8| b as char)
}

impl ReaderView {
    /// The next character, if the text has not run out.
    pub open spec fn peek(self) -> Option<char> {
        if self.position < self.chars.len() {
            Some(self.chars[self.position as int])
        } else {
            None
        }
    }

    /// The same source with the cursor at `position`.
    pub open spec fn at(self, position: nat) -> ReaderView {
        ReaderView { position, ..self }
    }

    /// The source after one `getchar`: the cursor moves unless the text has
    /// run out.
    pub open spec fn advanced(self) -> ReaderView {
        if self.position < self.chars.len() {
            self.at(self.position + 1)
        } else {
            self
        }
    }
}

impl View for CharReader {
    type V = ReaderView;

    closed spec fn view(&self) -> ReaderView {
        ReaderView {
            chars: chars_of(self.file_map@),
            position: self.byte_pointer as nat,
            file: self.current_file@,
        }
    }
}

impl CharReader {
    /// A reader at the start of `bytes`, the contents of the source named
    /// `file_path`.
    pub fn new(file_path: String, bytes: Vec<u8>) -> (r: CharReader)
        ensures
            r@ == (ReaderView { chars: chars_of(bytes@), position: 0, file: file_path@ }),
    {
        CharReader { file_map: bytes, byte_pointer: 0, current_file: file_path }
    }

    pub fn current_file(&self) -> (r: String)
        ensures
            r@ == self@.file,
    {
        self.current_file.clone()
    }

    /// The text of a reader is never longer than the machine can count.
    pub proof fn lemma_bounded(&self)
        ensures
            self@.chars.len() <= usize::MAX,
            self@.position <= usize::MAX,
    {
        assert(chars_of(self.file_map@).len() == self.file_map.len());
    }

    /// Consumes and returns the next character; `None` at the end of input.
    pub fn getchar(&mut self) -> (r: Option<char>)
        ensures
            r == old(self)@.peek(),
            final(self)@ == old(self)@.advanced(),
    {
        if self.byte_pointer < self.file_map.len() {
            let c: u8 = self.file_map[self.byte_pointer];
            self.byte_pointer += 1;
            Some(c as char)
        } else {
            None
        }
    }

    /// Returns the next character without consuming it.
    pub fn preview_char(&self) -> (r: Option<char>)
        ensures
            r == self@.peek(),
    {
        if self.byte_pointer < self.file_map.len() {
            let c: u8 = self.file_map[self.byte_pointer];
            Some(c as char)
        } else {
            None
        }
    }
}

} // verus!
