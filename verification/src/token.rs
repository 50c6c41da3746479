//! Lexical tokens and the binary operators of the language.

use vstd::prelude::*;
use crate::error::CompilerError;
use crate::error::ErrorView;

verus! {

/// The infix operators that the tokenizer recognizes.
#[derive(Debug, Clone, Copy, PartialEq, Eq, Structural)]
pub enum SimpleBinaryOperater {
    Addition,
    Subtraction,
    Multiplication,
    Division,
    LessThan,
    GreaterThan,
}

/// One lexical unit of a source text.
///
/// A numeric literal carries its text; the tokenizer only produces texts made
/// of digits with at most one `.` and at least one digit, which always denote
/// a 64-bit floating value.
#[derive(Debug, PartialEq, Eq)]
pub enum Token {
    Eof,
    Def,
    Extern,
    Identifier(String),
    F64Literal(String),
    SimpleBinaryOperator(SimpleBinaryOperater),
    Unknown(char),
    LeftParenthesis,
    RightParenthesis,
    SemiColon,
    BeginningOfFile,
    Comma,
}

/// Mathematical model of a [`Token`]: strings become sequences of characters.
pub ghost enum TokenView {
    Eof,
    Def,
    Extern,
    Identifier(Seq<char>),
    F64Literal(Seq<char>),
    SimpleBinaryOperator(SimpleBinaryOperater),
    Unknown(char),
    LeftParenthesis,
    RightParenthesis,
    SemiColon,
    BeginningOfFile,
    Comma,
}

impl View for Token {
    type V = TokenView;

    open spec fn view(&self) -> TokenView {
        match self {
            Token::Eof => TokenView::Eof,
            Token::Def => TokenView::Def,
            Token::Extern => TokenView::Extern,
            Token::Identifier(s) => TokenView::Identifier(s@),
            Token::F64Literal(s) => TokenView::F64Literal(s@),
            Token::SimpleBinaryOperator(op) => TokenView::SimpleBinaryOperator(*op),
            Token::Unknown(c) => TokenView::Unknown(*c),
            Token::LeftParenthesis => TokenView::LeftParenthesis,
            Token::RightParenthesis => TokenView::RightParenthesis,
            Token::SemiColon => TokenView::SemiColon,
            Token::BeginningOfFile => TokenView::BeginningOfFile,
            Token::Comma => TokenView::Comma,
        }
    }
}

impl Clone for Token {
    fn clone(&self) -> (r: Token)
        ensures
            r@ == self@,
    {
        match self {
            Token::Eof => Token::Eof,
            Token::Def => Token::Def,
            Token::Extern => Token::Extern,
            Token::Identifier(s) => Token::Identifier(s.clone()),
            Token::F64Literal(s) => Token::F64Literal(s.clone()),
            Token::SimpleBinaryOperator(op) => Token::SimpleBinaryOperator(*op),
            Token::Unknown(c) => Token::Unknown(*c),
            Token::LeftParenthesis => Token::LeftParenthesis,
            Token::RightParenthesis => Token::RightParenthesis,
            Token::SemiColon => Token::SemiColon,
            Token::Comma => Token::Comma,
            Token::BeginningOfFile => Token::BeginningOfFile,
        }
    }
}

/// The operator that a character spells, if it spells one.
pub open spec fn operator_of(c: char) -> Option<SimpleBinaryOperater> {
    if c == '+' {
        Some(SimpleBinaryOperater::Addition)
    } else if c == '-' {
        Some(SimpleBinaryOperater::Subtraction)
    } else if c == '*' {
        Some(SimpleBinaryOperater::Multiplication)
    } else if c == '/' {
        Some(SimpleBinaryOperater::Division)
    } else if c == '<' {
        Some(SimpleBinaryOperater::LessThan)
    } else if c == '>' {
        Some(SimpleBinaryOperater::GreaterThan)
    } else {
        None
    }
}

impl SimpleBinaryOperater {
    /// The character that spells this operator.
    pub open spec fn symbol(self) -> char {
        match self {
            SimpleBinaryOperater::Addition => '+',
            SimpleBinaryOperater::Subtraction => '-',
            SimpleBinaryOperater::Multiplication => '*',
            SimpleBinaryOperater::Division => '/',
            SimpleBinaryOperater::LessThan => '<',
            SimpleBinaryOperater::GreaterThan => '>',
        }
    }

    /// Reads an operator from its character; any other character is
    /// reported as `InvalidOperaterCharacter`.
    pub fn new(operator: char) -> (r: Result<Self, CompilerError>)
        ensures
            match operator_of(operator) {
                Some(op) => r == Ok::<Self, CompilerError>(op),
                None => r is Err && r->Err_0@ == ErrorView::InvalidOperaterCharacter(operator),
            },
    {
        match operator {
            '+' => Ok(SimpleBinaryOperater::Addition),
            '-' => Ok(SimpleBinaryOperater::Subtraction),
            '*' => Ok(SimpleBinaryOperater::Multiplication),
            '/' => Ok(SimpleBinaryOperater::Division),
            '<' => Ok(SimpleBinaryOperater::LessThan),
            '>' => Ok(SimpleBinaryOperater::GreaterThan),
            c => Err(CompilerError::InvalidOperaterCharacter(c)),
        }
    }

    /// The operator that an operator token holds; for any other token the
    /// error names the blank character.
    pub fn from_token(operator: &Token) -> (r: Result<Self, CompilerError>)
        ensures
            match operator@ {
                TokenView::SimpleBinaryOperator(op) => r == Ok::<Self, CompilerError>(op),
                _ => r is Err && r->Err_0@ == ErrorView::InvalidOperaterCharacter(' '),
            },
    {
        match operator {
            Token::SimpleBinaryOperator(o) => Ok(*o),
            _ => Err(CompilerError::InvalidOperaterCharacter(' ')),
        }
    }

    pub fn to_char(&self) -> (r: char)
        ensures
            r == self.symbol(),
    {
        match self {
            Self::Addition => '+',
            Self::Subtraction => '-',
            Self::Multiplication => '*',
            Self::Division => '/',
            Self::LessThan => '<',
            Self::GreaterThan => '>',
        }
    }
}

/// Spelling an operator and reading it back gives the same operator, and a
/// character that reads as an operator is that operator's spelling.
pub proof fn lemma_operator_symbol_round_trip(op: SimpleBinaryOperater, c: char)
    ensures
        operator_of(op.symbol()) == Some(op),
        operator_of(c) == Some(op) ==> c == op.symbol(),
{
}

} // verus!
