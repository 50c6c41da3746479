//! The tokenizer: pulls characters from a bound source and hands out one
//! token per request.

use std::collections::VecDeque;
use vstd::prelude::*;
use crate::char_reader::chars_of;
use crate::char_reader::CharReader;
use crate::char_reader::ReaderView;
use crate::error::CompilerError;
use crate::error::ErrorView;
use crate::lexis::digits;
use crate::lexis::dots;
use crate::lexis::ended;
use crate::lexis::failed;
use crate::lexis::is_alphabetic;
use crate::lexis::is_decimal;
use crate::lexis::is_digit;
use crate::lexis::is_numeric;
use crate::lexis::is_whitespace;
use crate::lexis::keyword_or_identifier;
use crate::lexis::lemma_end_is_final;
use crate::lexis::lemma_newlines_bounded;
use crate::lexis::lemma_scan_advances;
use crate::lexis::lemma_trivia_end;
use crate::lexis::newlines_before;
use crate::lexis::number_end;
use crate::lexis::scan;
use crate::lexis::stream_end;
use crate::lexis::token_stream;
use crate::lexis::trivia_end;
use crate::lexis::word_end;
use crate::lexis::TokenStream;
use crate::token::SimpleBinaryOperater;
use crate::token::Token;
use crate::token::TokenView;

verus! {

/// `String::push` appends one character to the end of the string.
pub assume_specification[ String::push ](s: &mut String, c: char)
    ensures
        final(s)@ == old(s)@.push(c),
;

/// The extension of the last component of a path, as
/// `std::path::Path::extension` reports it.
pub uninterp spec fn extension_of(path: Seq<char>) -> Option<Seq<char>>;

/// Calls `std::path::Path::extension` on `path`. The contract only names the
/// result: the same path always has the same extension.
#[verifier::external_body]
fn path_extension(path: &str) -> (r: Option<String>)
    ensures
        match r {
            Some(e) => extension_of(path@) == Some(e@),
            None => extension_of(path@) is None,
        },
{
    match std::path::Path::new(path).extension() {
        Some(e) => Some(e.to_string_lossy().into_owned()),
        None => None,
    }
}

/// The extension that marks a source of the language.
pub open spec fn is_source_extension(extension: Option<Seq<char>>) -> bool {
    extension == Some(seq!['f', 'r'])
}

/// Whether `extension` marks a source of the language.
pub fn accepts_extension(extension: &Option<String>) -> (r: bool)
    ensures
        r == is_source_extension(
            match extension {
                Some(e) => Some(e@),
                None => None,
            },
        ),
{
    match extension {
        None => false,
        Some(e) => {
            let marker: String = "fr".to_owned();
            proof {
                reveal_strlit("fr");
                assert("fr"@ =~= seq!['f', 'r']);
            }
            *e == marker
        },
    }
}

fn whitespace(c: char) -> (r: bool)
    ensures
        r == is_whitespace(c),
{
    c == ' ' || c == '\t' || c == '\n' || c == '\x0C' || c == '\r'
}

fn alphabetic(c: char) -> (r: bool)
    ensures
        r == is_alphabetic(c),
{
    ('a' <= c && c <= 'z') || ('A' <= c && c <= 'Z')
}

fn digit(c: char) -> (r: bool)
    ensures
        r == is_digit(c),
{
    '0' <= c && c <= '9'
}

/// The model of what a token request returns.
pub open spec fn outcome(r: Result<Token, CompilerError>) -> Result<TokenView, ErrorView> {
    match r {
        Ok(t) => Ok(t@),
        Err(e) => Err(e@),
    }
}

/// The models of a run of tokens.
pub open spec fn views(tokens: Seq<Token>) -> Seq<TokenView> {
    tokens.map_values(|t: Token| t@)
}

pub struct Lexer {
    current_char_reader: Option<CharReader>,
    current_line_number: usize,
}

impl Lexer {
    /// The bound source, if one is bound.
    pub closed spec fn source(&self) -> Option<ReaderView> {
        match self.current_char_reader {
            Some(r) => Some(r@),
            None => None,
        }
    }

    /// The line counter.
    pub closed spec fn line(&self) -> nat {
        self.current_line_number as nat
    }

    /// The line counter tells how many newlines of the bound source were
    /// consumed.
    pub open spec fn wf(&self) -> bool {
        match self.source() {
            Some(s) => self.line() == newlines_before(s.chars, s.position),
            None => true,
        }
    }

    /// The tokens that are still to come. With no source bound, every
    /// request fails.
    pub open spec fn pending(&self) -> TokenStream {
        match self.source() {
            Some(s) => token_stream(s.file, s.chars, s.position),
            None => failed(ErrorView::NonExistentFileError),
        }
    }

    /// A tokenizer with no source bound.
    pub fn init() -> (r: Lexer)
        ensures
            r.source() is None,
            r.line() == 0,
            r.wf(),
    {
        Lexer { current_char_reader: None, current_line_number: 0 }
    }

    /// A tokenizer at the start of `bytes`, the contents of the source named
    /// `file`.
    pub fn new(file: String, bytes: Vec<u8>) -> (r: Lexer)
        ensures
            r.source() == Some(ReaderView { chars: chars_of(bytes@), position: 0, file: file@ }),
            r.line() == 0,
            r.wf(),
    {
        Lexer { current_char_reader: Some(CharReader::new(file, bytes)), current_line_number: 0 }
    }

    /// Whether `file` names a source of the language: its extension is `fr`.
    pub fn recognizes(file: &str) -> (r: bool)
        ensures
            r == is_source_extension(extension_of(file@)),
    {
        let extension = path_extension(file);
        accepts_extension(&extension)
    }

    /// Binds the source named `file`, whose contents are `bytes`, in place of
    /// whatever was bound: the line counter restarts at 0 and nothing of the
    /// earlier source is kept. A name without the extension `fr` is refused
    /// and leaves the tokenizer as it was.
    pub fn new_file(&mut self, file: String, bytes: Vec<u8>) -> (r: Result<(), CompilerError>)
        ensures
            is_source_extension(extension_of(file@)) ==> r is Ok && final(self).source() == Some(
                ReaderView { chars: chars_of(bytes@), position: 0, file: file@ },
            ) && final(self).line() == 0 && final(self).wf(),
            !is_source_extension(extension_of(file@)) ==> r is Err && r->Err_0@
                == ErrorView::UnrecognizedFileError(file@) && *final(self) == *old(self),
    {
        if !Self::recognizes(file.as_str()) {
            return Err(CompilerError::UnrecognizedFileError(file));
        }
        self.current_char_reader = Some(CharReader::new(file, bytes));
        self.current_line_number = 0;
        Ok(())
    }

    /// The line counter: how many newlines were consumed since the source
    /// was bound.
    pub fn current_line(&self) -> (r: usize)
        ensures
            r == self.line(),
    {
        self.current_line_number
    }

    /// The name of the bound source; empty when none is bound.
    pub fn current_file(&self) -> (r: String)
        ensures
            r@ == match self.source() {
                Some(s) => s.file,
                None => Seq::<char>::empty(),
            },
    {
        match &self.current_char_reader {
            Some(reader) => reader.current_file(),
            None => String::new(),
        }
    }

    /// Consumes whitespace and comments, counting the newlines.
    fn skip_trivia(reader: &mut CharReader, line: &mut usize)
        requires
            *old(line) == newlines_before(old(reader)@.chars, old(reader)@.position),
        ensures
            final(reader)@ == old(reader)@.at(
                trivia_end(old(reader)@.chars, old(reader)@.position, false),
            ),
            *final(line) == newlines_before(final(reader)@.chars, final(reader)@.position),
    {
        let mut in_comment: bool = false;
        loop
            invariant
                reader@ == old(reader)@.at(reader@.position),
                trivia_end(reader@.chars, reader@.position, in_comment) == trivia_end(
                    old(reader)@.chars,
                    old(reader)@.position,
                    false,
                ),
                *line == newlines_before(reader@.chars, reader@.position),
            ensures
                reader@.position == trivia_end(reader@.chars, reader@.position, in_comment),
            decreases reader@.chars.len() - reader@.position,
        {
            let c: char = match reader.preview_char() {
                Some(c) => c,
                None => break,
            };
            if !in_comment && !whitespace(c) && c != '#' {
                break;
            }
            proof {
                reader.lemma_bounded();
                lemma_newlines_bounded(reader@.chars, reader@.position);
            }
            let _ = reader.getchar();
            if c == '\n' {
                *line = *line + 1;
            }
            in_comment = if in_comment {
                c != '\n'
            } else {
                c == '#'
            };
        }
    }

    /// Consumes a run of letters and resolves it to a keyword or an
    /// identifier.
    fn collect_identifier(reader: &mut CharReader) -> (r: Token)
        requires
            old(reader)@.position <= old(reader)@.chars.len(),
        ensures
            final(reader)@ == old(reader)@.at(word_end(old(reader)@.chars, old(reader)@.position)),
            r@ == keyword_or_identifier(
                old(reader)@.chars.subrange(
                    old(reader)@.position as int,
                    word_end(old(reader)@.chars, old(reader)@.position) as int,
                ),
            ),
    {
        let mut built_lexeme: String = String::new();
        loop
            invariant
                reader@ == old(reader)@.at(reader@.position),
                old(reader)@.position <= reader@.position <= reader@.chars.len(),
                word_end(reader@.chars, reader@.position) == word_end(
                    old(reader)@.chars,
                    old(reader)@.position,
                ),
                built_lexeme@ == reader@.chars.subrange(
                    old(reader)@.position as int,
                    reader@.position as int,
                ),
            ensures
                reader@.position == word_end(reader@.chars, reader@.position),
            decreases reader@.chars.len() - reader@.position,
        {
            let c: char = match reader.preview_char() {
                Some(c) => c,
                None => break,
            };
            if !alphabetic(c) {
                break;
            }
            let _ = reader.getchar();
            built_lexeme.push(c);
            assert(built_lexeme@ =~= reader@.chars.subrange(
                old(reader)@.position as int,
                reader@.position as int,
            ));
        }
        let def: String = "def".to_owned();
        let ext: String = "extern".to_owned();
        proof {
            reveal_strlit("def");
            reveal_strlit("extern");
            assert("def"@ =~= seq!['d', 'e', 'f']);
            assert("extern"@ =~= seq!['e', 'x', 't', 'e', 'r', 'n']);
        }
        if built_lexeme == def {
            Token::Def
        } else if built_lexeme == ext {
            Token::Extern
        } else {
            Token::Identifier(built_lexeme)
        }
    }

    /// Consumes a run of digits and dots; the run is a literal when it
    /// denotes a number, and otherwise a failure that names `line` and the
    /// source.
    fn collect_number(reader: &mut CharReader, line: usize) -> (r: Result<Token, CompilerError>)
        requires
            old(reader)@.position <= old(reader)@.chars.len(),
        ensures
            final(reader)@ == old(reader)@.at(
                number_end(old(reader)@.chars, old(reader)@.position),
            ),
            ({
                let text = old(reader)@.chars.subrange(
                    old(reader)@.position as int,
                    number_end(old(reader)@.chars, old(reader)@.position) as int,
                );
                outcome(r) == if is_decimal(text) {
                    Ok::<TokenView, ErrorView>(TokenView::F64Literal(text))
                } else {
                    Err::<TokenView, ErrorView>(
                        ErrorView::ExpectedNumberError(line, old(reader)@.file),
                    )
                }
            }),
    {
        let mut built_lexeme: String = String::new();
        let mut seen_digit: bool = false;
        let mut seen_dot: bool = false;
        let mut extra_dot: bool = false;
        loop
            invariant
                reader@ == old(reader)@.at(reader@.position),
                old(reader)@.position <= reader@.position <= reader@.chars.len(),
                number_end(reader@.chars, reader@.position) == number_end(
                    old(reader)@.chars,
                    old(reader)@.position,
                ),
                built_lexeme@ == reader@.chars.subrange(
                    old(reader)@.position as int,
                    reader@.position as int,
                ),
                seen_digit == (digits(built_lexeme@) >= 1),
                seen_dot == (dots(built_lexeme@) >= 1),
                extra_dot == (dots(built_lexeme@) >= 2),
            ensures
                reader@.position == number_end(reader@.chars, reader@.position),
            decreases reader@.chars.len() - reader@.position,
        {
            let c: char = match reader.preview_char() {
                Some(c) => c,
                None => break,
            };
            let is_digit: bool = digit(c);
            if !is_digit && c != '.' {
                break;
            }
            let _ = reader.getchar();
            let ghost before = built_lexeme@;
            built_lexeme.push(c);
            assert(built_lexeme@.drop_last() =~= before);
            assert(built_lexeme@ =~= reader@.chars.subrange(
                old(reader)@.position as int,
                reader@.position as int,
            ));
            if is_digit {
                seen_digit = true;
            } else {
                extra_dot = seen_dot;
                seen_dot = true;
            }
        }
        if seen_digit && !extra_dot {
            Ok(Token::F64Literal(built_lexeme))
        } else {
            Err(CompilerError::ExpectedNumberError(line, reader.current_file()))
        }
    }

    /// Hands out the next token of the bound source: skips whitespace and
    /// comments, then reads one token. At the end of input the token is
    /// `Eof`, on every request. With no source bound the request fails.
    pub fn get_token(&mut self) -> (r: Result<Token, CompilerError>)
        requires
            old(self).wf(),
        ensures
            final(self).wf(),
            match old(self).source() {
                Some(s) => {
                    let scanned = scan(s.file, s.chars, s.position);
                    &&& outcome(r) == scanned.token
                    &&& final(self).source() == Some(s.at(scanned.next))
                },
                None => {
                    &&& outcome(r) == Err::<TokenView, ErrorView>(ErrorView::NonExistentFileError)
                    &&& *final(self) == *old(self)
                },
            },
    {
        let mut reader: CharReader = match self.current_char_reader.take() {
            Some(r) => r,
            None => return Err(CompilerError::NonExistentFileError),
        };
        let mut line: usize = self.current_line_number;
        Self::skip_trivia(&mut reader, &mut line);
        self.current_line_number = line;
        proof {
            lemma_trivia_end(old(self).source().unwrap().chars, old(self).source().unwrap().position, false);
        }
        let token: Result<Token, CompilerError> = match reader.preview_char() {
            None => Ok(Token::Eof),
            Some(c) => {
                if c == '(' {
                    let _ = reader.getchar();
                    Ok(Token::LeftParenthesis)
                } else if c == ')' {
                    let _ = reader.getchar();
                    Ok(Token::RightParenthesis)
                } else if c == ';' {
                    let _ = reader.getchar();
                    Ok(Token::SemiColon)
                } else if c == ',' {
                    let _ = reader.getchar();
                    Ok(Token::Comma)
                } else if alphabetic(c) {
                    proof {
                        lemma_word_end_line(reader@.chars, reader@.position);
                    }
                    Ok(Self::collect_identifier(&mut reader))
                } else if digit(c) || c == '.' {
                    proof {
                        lemma_number_end_line(reader@.chars, reader@.position);
                    }
                    Self::collect_number(&mut reader, line)
                } else {
                    let _ = reader.getchar();
                    match SimpleBinaryOperater::new(c) {
                        Ok(op) => Ok(Token::SimpleBinaryOperator(op)),
                        Err(_) => Ok(Token::Unknown(c)),
                    }
                }
            },
        };
        self.current_char_reader = Some(reader);
        token
    }

    /// Collects every token of the bound source, the end-of-input token
    /// last; the first failure ends the run. The tokenizer is left at the
    /// end of input, or after the text that failed.
    pub fn lex(&mut self) -> (r: Result<VecDeque<Token>, CompilerError>)
        requires
            old(self).wf(),
        ensures
            final(self).wf(),
            final(self).source() == match old(self).source() {
                Some(s) => Some(s.at(stream_end(s.file, s.chars, s.position))),
                None => None::<ReaderView>,
            },
            match old(self).pending().failure {
                None => r is Ok && views(r->Ok_0@) == old(self).pending().tokens.push(
                    TokenView::Eof,
                ) && final(self).pending() == ended(),
                Some(e) => r is Err && r->Err_0@ == e,
            },
    {
        let mut tokens: VecDeque<Token> = VecDeque::new();
        loop
            invariant_except_break
                old(self).pending().failure == self.pending().failure,
                old(self).pending().tokens == views(tokens@) + self.pending().tokens,
            invariant
                self.wf(),
                old(self).source() is Some == self.source() is Some,
                final_place(*old(self)) == final_place(*self),
            ensures
                old(self).pending().failure is None,
                views(tokens@) == old(self).pending().tokens.push(TokenView::Eof),
                self.pending() == ended(),
                self.source() == final_place(*old(self)),
            decreases
                    match self.source() {
                        Some(s) => s.chars.len() - s.position,
                        None => 0,
                    },
        {
            proof {
                if let Some(s) = self.source() {
                    lemma_scan_advances(s.file, s.chars, s.position);
                }
            }
            let ghost before = views(tokens@);
            let ghost pending = self.pending();
            proof {
                if let Some(s) = self.source() {
                    if scan(s.file, s.chars, s.position).token == Ok::<TokenView, ErrorView>(
                        TokenView::Eof,
                    ) {
                        lemma_end_is_final(s.file, s.chars, s.position);
                    }
                }
            }
            let token: Token = match self.get_token() {
                Ok(t) => t,
                Err(e) => {
                    assert(pending.failure == Some(e@));
                    return Err(e);
                },
            };
            let at_end: bool = matches!(token, Token::Eof);
            tokens.push_back(token);
            assert(views(tokens@) =~= before.push(token@));
            if at_end {
                assert(pending.tokens =~= Seq::<TokenView>::empty());
                assert(old(self).pending().tokens =~= before);
                break;
            }
            assert(pending.tokens =~= seq![token@] + self.pending().tokens);
            assert(old(self).pending().tokens =~= views(tokens@) + self.pending().tokens);
        }
        Ok(tokens)
    }
}

/// Where pulling every token leaves the cursor of `lexer`.
spec fn final_place(lexer: Lexer) -> Option<ReaderView> {
    match lexer.source() {
        Some(s) => Some(s.at(stream_end(s.file, s.chars, s.position))),
        None => None,
    }
}

/// A run of letters holds no newline, so the line does not change over it.
proof fn lemma_word_end_line(chars: Seq<char>, position: nat)
    requires
        position <= chars.len(),
    ensures
        newlines_before(chars, word_end(chars, position)) == newlines_before(chars, position),
    decreases chars.len() - position,
{
    if position < chars.len() && is_alphabetic(chars[position as int]) {
        lemma_word_end_line(chars, position + 1);
    }
}

/// A run of digits and dots holds no newline.
proof fn lemma_number_end_line(chars: Seq<char>, position: nat)
    requires
        position <= chars.len(),
    ensures
        newlines_before(chars, number_end(chars, position)) == newlines_before(chars, position),
    decreases chars.len() - position,
{
    if position < chars.len() && is_numeric(chars[position as int]) {
        lemma_number_end_line(chars, position + 1);
    }
}

} // verus!
