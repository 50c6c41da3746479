//! What the tokenizer computes, stated over the text of a source: where the
//! next token starts, where it ends, which token it is, and the whole
//! sequence of tokens that a source yields.

use vstd::prelude::*;
use crate::error::ErrorView;
use crate::token::operator_of;
use crate::token::TokenView;

verus! {

pub open spec fn is_whitespace(c: char) -> bool {
    c == ' ' || c == '\t' || c == '\n' || c == '\x0C' || c == '\r'
}

pub open spec fn is_alphabetic(c: char) -> bool {
    ('a' <= c && c <= 'z') || ('A' <= c && c <= 'Z')
}

pub open spec fn is_digit(c: char) -> bool {
    '0' <= c && c <= '9'
}

/// A character that a numeric literal is made of.
pub open spec fn is_numeric(c: char) -> bool {
    is_digit(c) || c == '.'
}

/// How many newlines lie before `position`: the line that a cursor at
/// `position` is on, counting from 0.
pub open spec fn newlines_before(chars: Seq<char>, position: nat) -> nat
    decreases position,
{
    if position == 0 {
        0
    } else {
        let earlier = newlines_before(chars, (position - 1) as nat);
        if position <= chars.len() && chars[position - 1] == '\n' {
            earlier + 1
        } else {
            earlier
        }
    }
}

/// Where the first character at or after `position` stands that is neither
/// whitespace nor part of a comment; a comment runs from `#` through the end
/// of its line. `in_comment` tells whether `position` lies inside a comment.
pub open spec fn trivia_end(chars: Seq<char>, position: nat, in_comment: bool) -> nat
    decreases chars.len() - position,
{
    if position >= chars.len() {
        position
    } else if in_comment {
        trivia_end(chars, position + 1, chars[position as int] != '\n')
    } else if is_whitespace(chars[position as int]) {
        trivia_end(chars, position + 1, false)
    } else if chars[position as int] == '#' {
        trivia_end(chars, position + 1, true)
    } else {
        position
    }
}

/// The end of the longest run of letters that starts at `position`.
pub open spec fn word_end(chars: Seq<char>, position: nat) -> nat
    decreases chars.len() - position,
{
    if position < chars.len() && is_alphabetic(chars[position as int]) {
        word_end(chars, position + 1)
    } else {
        position
    }
}

/// The end of the longest run of digits and dots that starts at `position`.
pub open spec fn number_end(chars: Seq<char>, position: nat) -> nat
    decreases chars.len() - position,
{
    if position < chars.len() && is_numeric(chars[position as int]) {
        number_end(chars, position + 1)
    } else {
        position
    }
}

/// How many dots `text` holds.
pub open spec fn dots(text: Seq<char>) -> nat
    decreases text.len(),
{
    if text.len() == 0 {
        0
    } else if text.last() == '.' {
        dots(text.drop_last()) + 1
    } else {
        dots(text.drop_last())
    }
}

/// How many digits `text` holds.
pub open spec fn digits(text: Seq<char>) -> nat
    decreases text.len(),
{
    if text.len() == 0 {
        0
    } else if is_digit(text.last()) {
        digits(text.drop_last()) + 1
    } else {
        digits(text.drop_last())
    }
}

/// A run of digits and dots denotes a number when it has at most one dot and
/// at least one digit.
pub open spec fn is_decimal(text: Seq<char>) -> bool {
    dots(text) <= 1 && digits(text) >= 1
}

/// A word is one of the two keywords, or else an identifier.
pub open spec fn keyword_or_identifier(word: Seq<char>) -> TokenView {
    if word == seq!['d', 'e', 'f'] {
        TokenView::Def
    } else if word == seq!['e', 'x', 't', 'e', 'r', 'n'] {
        TokenView::Extern
    } else {
        TokenView::Identifier(word)
    }
}

/// The outcome of one token request: the token or the failure, and where
/// the cursor stands afterwards.
pub ghost struct Scanned {
    pub token: Result<TokenView, ErrorView>,
    pub next: nat,
}

/// The token that starts at `start`, where a character stands that is
/// neither whitespace nor `#`.
pub open spec fn token_at(file: Seq<char>, chars: Seq<char>, start: nat) -> Scanned
    recommends
        start < chars.len(),
{
    let c = chars[start as int];
    if c == '(' {
        Scanned { token: Ok(TokenView::LeftParenthesis), next: start + 1 }
    } else if c == ')' {
        Scanned { token: Ok(TokenView::RightParenthesis), next: start + 1 }
    } else if c == ';' {
        Scanned { token: Ok(TokenView::SemiColon), next: start + 1 }
    } else if c == ',' {
        Scanned { token: Ok(TokenView::Comma), next: start + 1 }
    } else if is_alphabetic(c) {
        let end = word_end(chars, start);
        Scanned {
            token: Ok(keyword_or_identifier(chars.subrange(start as int, end as int))),
            next: end,
        }
    } else if is_numeric(c) {
        let end = number_end(chars, start);
        let text = chars.subrange(start as int, end as int);
        Scanned {
            token: if is_decimal(text) {
                Ok(TokenView::F64Literal(text))
            } else {
                Err(ErrorView::ExpectedNumberError(newlines_before(chars, start) as usize, file))
            },
            next: end,
        }
    } else {
        Scanned {
            token: Ok(
                match operator_of(c) {
                    Some(op) => TokenView::SimpleBinaryOperator(op),
                    None => TokenView::Unknown(c),
                },
            ),
            next: start + 1,
        }
    }
}

/// One token request on the text `chars` of the source named `file`, with
/// the cursor at `position`.
pub open spec fn scan(file: Seq<char>, chars: Seq<char>, position: nat) -> Scanned {
    let start = trivia_end(chars, position, false);
    if start >= chars.len() {
        Scanned { token: Ok(TokenView::Eof), next: start }
    } else {
        token_at(file, chars, start)
    }
}

/// The tokens that successive requests yield, up to the end of input or to
/// the first failure. The end-of-input token is not listed: a stream without
/// a failure ends with it.
pub ghost struct TokenStream {
    pub tokens: Seq<TokenView>,
    pub failure: Option<ErrorView>,
}

impl TokenStream {
    /// The stream that yields `token` first and then this stream.
    pub open spec fn after(self, token: TokenView) -> TokenStream {
        TokenStream { tokens: seq![token] + self.tokens, failure: self.failure }
    }

    /// The stream without its first token.
    pub open spec fn rest(self) -> TokenStream
        recommends
            self.tokens.len() > 0,
    {
        TokenStream { tokens: self.tokens.skip(1), failure: self.failure }
    }

    /// The token that a parser looking at this stream sees.
    pub open spec fn current(self) -> TokenView {
        if self.tokens.len() > 0 {
            self.tokens[0]
        } else {
            TokenView::Eof
        }
    }
}

/// The stream of a source that has run out.
pub open spec fn ended() -> TokenStream {
    TokenStream { tokens: Seq::empty(), failure: None }
}

/// The stream that fails at once with `e`.
pub open spec fn failed(e: ErrorView) -> TokenStream {
    TokenStream { tokens: Seq::empty(), failure: Some(e) }
}

/// The tokens of the source from `position` on.
pub open spec fn token_stream(file: Seq<char>, chars: Seq<char>, position: nat) -> TokenStream
    decreases chars.len() - position,
    via token_stream_terminates
{
    let scanned = scan(file, chars, position);
    match scanned.token {
        Err(e) => failed(e),
        Ok(TokenView::Eof) => ended(),
        Ok(token) => token_stream(file, chars, scanned.next).after(token),
    }
}

#[via_fn]
proof fn token_stream_terminates(file: Seq<char>, chars: Seq<char>, position: nat) {
    lemma_scan_advances(file, chars, position);
}

/// Where the cursor stands once the stream from `position` has been pulled
/// to its end: at the end of input, or after the text that failed.
pub open spec fn stream_end(file: Seq<char>, chars: Seq<char>, position: nat) -> nat
    decreases chars.len() - position,
    via stream_end_terminates
{
    let scanned = scan(file, chars, position);
    match scanned.token {
        Err(_) => scanned.next,
        Ok(TokenView::Eof) => scanned.next,
        Ok(_) => stream_end(file, chars, scanned.next),
    }
}

#[via_fn]
proof fn stream_end_terminates(file: Seq<char>, chars: Seq<char>, position: nat) {
    lemma_scan_advances(file, chars, position);
}

/// Skipping whitespace and comments never moves the cursor back, and ends
/// outside a comment on a character that starts a token, or at the end.
pub proof fn lemma_trivia_end(chars: Seq<char>, position: nat, in_comment: bool)
    ensures
        position <= trivia_end(chars, position, in_comment),
        position <= chars.len() ==> trivia_end(chars, position, in_comment) <= chars.len(),
        trivia_end(chars, position, in_comment) < chars.len() ==> {
            let c = chars[trivia_end(chars, position, in_comment) as int];
            !is_whitespace(c) && c != '#'
        },
    decreases chars.len() - position,
{
    if position < chars.len() {
        if in_comment {
            lemma_trivia_end(chars, position + 1, chars[position as int] != '\n');
        } else if is_whitespace(chars[position as int]) {
            lemma_trivia_end(chars, position + 1, false);
        } else if chars[position as int] == '#' {
            lemma_trivia_end(chars, position + 1, true);
        }
    }
}

/// A word is the longest run of letters from its start: it ends at or
/// after its start, within the text; each of its characters is a letter,
/// and the character after it is none.
pub proof fn lemma_word_end(chars: Seq<char>, position: nat)
    ensures
        position <= word_end(chars, position),
        position <= chars.len() ==> word_end(chars, position) <= chars.len(),
        position < chars.len() && is_alphabetic(chars[position as int]) ==> position < word_end(
            chars,
            position,
        ),
        forall|i: int|
            position <= i < word_end(chars, position) ==> is_alphabetic(#[trigger] chars[i]),
        word_end(chars, position) < chars.len() ==> !is_alphabetic(
            chars[word_end(chars, position) as int],
        ),
    decreases chars.len() - position,
{
    if position < chars.len() && is_alphabetic(chars[position as int]) {
        lemma_word_end(chars, position + 1);
    }
}

/// A numeric run is the longest run of digits and dots from its start.
pub proof fn lemma_number_end(chars: Seq<char>, position: nat)
    ensures
        position <= number_end(chars, position),
        position <= chars.len() ==> number_end(chars, position) <= chars.len(),
        position < chars.len() && is_numeric(chars[position as int]) ==> position < number_end(
            chars,
            position,
        ),
        forall|i: int|
            position <= i < number_end(chars, position) ==> is_numeric(#[trigger] chars[i]),
        number_end(chars, position) < chars.len() ==> !is_numeric(
            chars[number_end(chars, position) as int],
        ),
    decreases chars.len() - position,
{
    if position < chars.len() && is_numeric(chars[position as int]) {
        lemma_number_end(chars, position + 1);
    }
}

/// Every token but the end of input, and every failure, consumes at least
/// one character; the end of input consumes what is left.
pub proof fn lemma_scan_advances(file: Seq<char>, chars: Seq<char>, position: nat)
    ensures
        position <= scan(file, chars, position).next,
        position <= chars.len() ==> scan(file, chars, position).next <= chars.len(),
        scan(file, chars, position).token != Ok::<TokenView, ErrorView>(TokenView::Eof)
            ==> position < scan(file, chars, position).next,
        scan(file, chars, position).token == Ok::<TokenView, ErrorView>(TokenView::Eof)
            <==> trivia_end(chars, position, false) >= chars.len(),
{
    let start = trivia_end(chars, position, false);
    lemma_trivia_end(chars, position, false);
    lemma_word_end(chars, start);
    lemma_number_end(chars, start);
}

/// The texts that tokens carry: an identifier is a word of letters and no
/// keyword, and a numeric literal is a run of digits and dots that denotes
/// a number.
pub proof fn lemma_scanned_texts(file: Seq<char>, chars: Seq<char>, position: nat)
    ensures
        scan(file, chars, position).token matches Ok(TokenView::Identifier(name)) ==> {
            &&& name.len() > 0
            &&& forall|i: int| 0 <= i < name.len() ==> is_alphabetic(#[trigger] name[i])
            &&& name != seq!['d', 'e', 'f']
            &&& name != seq!['e', 'x', 't', 'e', 'r', 'n']
        },
        scan(file, chars, position).token matches Ok(TokenView::F64Literal(text)) ==> {
            &&& is_decimal(text)
            &&& forall|i: int| 0 <= i < text.len() ==> is_numeric(#[trigger] text[i])
        },
{
    let start = trivia_end(chars, position, false);
    lemma_trivia_end(chars, position, false);
    lemma_word_end(chars, start);
    lemma_number_end(chars, start);
}

/// Where a comment ends whose text goes on at `position`: after the next
/// newline, or at the end of the text.
pub open spec fn comment_end(chars: Seq<char>, position: nat) -> nat
    decreases chars.len() - position,
{
    if position >= chars.len() {
        position
    } else if chars[position as int] == '\n' {
        position + 1
    } else {
        comment_end(chars, position + 1)
    }
}

proof fn lemma_comment_is_skipped(chars: Seq<char>, position: nat)
    ensures
        trivia_end(chars, position, true) == trivia_end(
            chars,
            comment_end(chars, position),
            false,
        ),
    decreases chars.len() - position,
{
    if position < chars.len() && chars[position as int] != '\n' {
        lemma_comment_is_skipped(chars, position + 1);
    }
}

/// A comment adds one line where a newline ends it, and none where the
/// text ends first.
pub proof fn lemma_comment_counts_its_newline(chars: Seq<char>, position: nat)
    requires
        position <= chars.len(),
    ensures
        position <= comment_end(chars, position) <= chars.len(),
        newlines_before(chars, comment_end(chars, position)) == newlines_before(chars, position)
            + if comment_end(chars, position) > position && chars[comment_end(chars, position)
            - 1] == '\n' {
            1nat
        } else {
            0nat
        },
    decreases chars.len() - position,
{
    if position < chars.len() && chars[position as int] != '\n' {
        lemma_comment_counts_its_newline(chars, position + 1);
    }
}

/// Whitespace and comments are transparent: a request in front of a
/// whitespace character gives what a request after it gives, and a request
/// in front of a comment gives what a request after the comment gives.
pub proof fn lemma_trivia_is_transparent(file: Seq<char>, chars: Seq<char>, position: nat)
    requires
        position < chars.len(),
    ensures
        is_whitespace(chars[position as int]) ==> scan(file, chars, position) == scan(
            file,
            chars,
            position + 1,
        ),
        chars[position as int] == '#' ==> scan(file, chars, position) == scan(
            file,
            chars,
            comment_end(chars, position + 1),
        ),
{
    lemma_comment_is_skipped(chars, position + 1);
}

/// The end of input is final: once a request has met it, nothing is left.
pub proof fn lemma_end_is_final(file: Seq<char>, chars: Seq<char>, position: nat)
    requires
        scan(file, chars, position).token == Ok::<TokenView, ErrorView>(TokenView::Eof),
    ensures
        token_stream(file, chars, position) == ended(),
        token_stream(file, chars, scan(file, chars, position).next) == ended(),
{
    let next = scan(file, chars, position).next;
    lemma_trivia_end(chars, position, false);
    assert(trivia_end(chars, next, false) == next);
}

/// No token of a stream is the end of input: the end comes once, after the
/// last token.
pub proof fn lemma_stream_lists_no_end(file: Seq<char>, chars: Seq<char>, position: nat, i: int)
    requires
        0 <= i < token_stream(file, chars, position).tokens.len(),
    ensures
        !(token_stream(file, chars, position).tokens[i] is Eof),
    decreases chars.len() - position,
{
    let scanned = scan(file, chars, position);
    lemma_scan_advances(file, chars, position);
    if i > 0 {
        lemma_stream_lists_no_end(file, chars, scanned.next, i - 1);
    }
}

/// Whether a comment that starts with the `#` at `from` is still open at
/// `position`: no newline stands from `from` up to `position`.
pub open spec fn comment_from(chars: Seq<char>, from: int, position: int) -> bool {
    &&& 0 <= from < position
    &&& chars[from] == '#'
    &&& forall|k: int| from <= k < position ==> chars[k] != '\n'
}

/// Whether `position` lies inside a comment.
pub open spec fn in_comment(chars: Seq<char>, position: int) -> bool {
    exists|from: int| comment_from(chars, from, position)
}

/// A text of whitespace and comments only: every character is whitespace,
/// or starts a comment, or lies inside one.
pub open spec fn is_blank(chars: Seq<char>) -> bool {
    forall|i: int|
        0 <= i < chars.len() ==> is_whitespace(#[trigger] chars[i]) || chars[i] == '#'
            || in_comment(chars, i)
}

proof fn lemma_blank_is_skipped(chars: Seq<char>, position: nat, commenting: bool)
    requires
        is_blank(chars),
        position <= chars.len(),
        commenting == in_comment(chars, position as int),
    ensures
        trivia_end(chars, position, commenting) == chars.len(),
    decreases chars.len() - position,
{
    if position < chars.len() {
        let p = position as int;
        let c = chars[p];
        let q = p + 1;
        let next = if commenting {
            c != '\n'
        } else {
            c == '#'
        };
        if commenting {
            let from = choose|from: int| comment_from(chars, from, p);
            if c != '\n' {
                assert(comment_from(chars, from, q));
            } else {
                assert forall|other: int| !#[trigger] comment_from(chars, other, q) by {
                    if comment_from(chars, other, q) {
                        assert(chars[p] != '\n');
                    }
                }
            }
        } else {
            if c == '#' {
                assert(comment_from(chars, p, q));
            } else {
                assert(is_whitespace(chars[p]) || chars[p] == '#' || in_comment(chars, p));
                assert forall|other: int| !#[trigger] comment_from(chars, other, q) by {
                    if comment_from(chars, other, q) {
                        if other < p {
                            assert(comment_from(chars, other, p));
                        }
                    }
                }
            }
        }
        assert(in_comment(chars, q) == next);
        lemma_blank_is_skipped(chars, position + 1, next);
    }
}

/// A source of whitespace and comments only yields the end of input at the
/// first request and no token at all.
pub proof fn lemma_blank_source_yields_only_the_end(file: Seq<char>, chars: Seq<char>)
    requires
        is_blank(chars),
    ensures
        scan(file, chars, 0).token == Ok::<TokenView, ErrorView>(TokenView::Eof),
        token_stream(file, chars, 0) == ended(),
{
    assert(!in_comment(chars, 0));
    lemma_blank_is_skipped(chars, 0, false);
}

/// A cursor has at most as many newlines behind it as characters.
pub proof fn lemma_newlines_bounded(chars: Seq<char>, position: nat)
    ensures
        newlines_before(chars, position) <= position,
    decreases position,
{
    if position > 0 {
        lemma_newlines_bounded(chars, (position - 1) as nat);
    }
}

} // verus!
