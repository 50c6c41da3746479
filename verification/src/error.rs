//! The failures that tokenizing and parsing report.

use vstd::prelude::*;
use crate::token::Token;
use crate::token::TokenView;

verus! {

/// A failure of the front end. Variants that concern a source carry its
/// name; variants raised while reading one carry the reader's message.
#[derive(Debug, PartialEq, Eq)]
pub enum CompilerError {
    FileIOError(String, String),
    UnrecognizedFileError(String),
    UnreadableLineError(String, usize, String),
    UnreadableCharacterError(usize),
    NonExistentFileError,
    InvalidNumberError(String),
    ExpectedNumberError(usize, String),
    ExpectedExpressionError,
    InvalidOperaterCharacter(char),
    FunctionNameNotFound,
    UnexpectedTokenError(Token),
}

/// Mathematical model of a [`CompilerError`].
pub ghost enum ErrorView {
    FileIOError(Seq<char>, Seq<char>),
    UnrecognizedFileError(Seq<char>),
    UnreadableLineError(Seq<char>, usize, Seq<char>),
    UnreadableCharacterError(usize),
    NonExistentFileError,
    InvalidNumberError(Seq<char>),
    ExpectedNumberError(usize, Seq<char>),
    ExpectedExpressionError,
    InvalidOperaterCharacter(char),
    FunctionNameNotFound,
    UnexpectedTokenError(TokenView),
}

impl View for CompilerError {
    type V = ErrorView;

    open spec fn view(&self) -> ErrorView {
        match self {
            CompilerError::FileIOError(f, e) => ErrorView::FileIOError(f@, e@),
            CompilerError::UnrecognizedFileError(f) => ErrorView::UnrecognizedFileError(f@),
            CompilerError::UnreadableLineError(f, n, e) => ErrorView::UnreadableLineError(
                f@,
                *n,
                e@,
            ),
            CompilerError::UnreadableCharacterError(n) => ErrorView::UnreadableCharacterError(*n),
            CompilerError::NonExistentFileError => ErrorView::NonExistentFileError,
            CompilerError::InvalidNumberError(s) => ErrorView::InvalidNumberError(s@),
            CompilerError::ExpectedNumberError(n, f) => ErrorView::ExpectedNumberError(*n, f@),
            CompilerError::ExpectedExpressionError => ErrorView::ExpectedExpressionError,
            CompilerError::InvalidOperaterCharacter(c) => ErrorView::InvalidOperaterCharacter(*c),
            CompilerError::FunctionNameNotFound => ErrorView::FunctionNameNotFound,
            CompilerError::UnexpectedTokenError(t) => ErrorView::UnexpectedTokenError(t@),
        }
    }
}

} // verus!
